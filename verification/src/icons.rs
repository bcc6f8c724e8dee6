//! The fixed table from a provider condition code to a display glyph.
//! The mapping is total: a code outside the known set yields the empty
//! glyph rather than an error.

use vstd::prelude::*;
use crate::strnum::str_eq;
use vstd::string::StringExecFns;

verus! {

/// The condition codes the table knows.
pub open spec fn is_known_code(code: Seq<char>) -> bool {
    ||| code == "01d"@
    ||| code == "01n"@
    ||| code == "02d"@
    ||| code == "03d"@
    ||| code == "03n"@
    ||| code == "04d"@
    ||| code == "04n"@
    ||| code == "02n"@
    ||| code == "09"@
    ||| code == "10d"@
    ||| code == "10n"@
    ||| code == "10n 11n"@
    ||| code == "10d 11d"@
    ||| code == "11"@
    ||| code == "13d"@
    ||| code == "13n"@
    ||| code == "50d"@
    ||| code == "50n"@
}

/// The glyph for a condition code; the empty sequence for a code outside
/// the known set.
pub open spec fn spec_icon(code: Seq<char>) -> Seq<char> {
    if code == "01d"@ {
        "\u{f0599}"@
    } else if code == "01n"@ {
        "\u{f0594}"@
    } else if code == "02d"@ {
        "\u{f0595}"@
    } else if code == "03d"@ {
        "\u{f0590}"@
    } else if code == "03n"@ {
        "\u{f0590}"@
    } else if code == "04d"@ {
        "\u{f0590}"@
    } else if code == "04n"@ {
        "\u{f0590}"@
    } else if code == "02n"@ {
        "\u{f0f31}"@
    } else if code == "09"@ {
        "\u{f0596}"@
    } else if code == "10d"@ {
        "\u{f0f33}"@
    } else if code == "10n"@ {
        "\u{e325}"@
    } else if code == "10n 11n"@ {
        "\u{e322}"@
    } else if code == "10d 11d"@ {
        "\u{f0f32}"@
    } else if code == "11"@ {
        "\u{e315}"@
    } else if code == "13d"@ {
        "\u{e35f}"@
    } else if code == "13n"@ {
        "\u{e327}"@
    } else if code == "50d"@ {
        "\u{e303}"@
    } else if code == "50n"@ {
        "\u{e346}"@
    } else {
        Seq::<char>::empty()
    }
}

/// Looks a condition code up in the glyph table.
pub fn icon_for(code: &str) -> (r: String)
    ensures
        r@ == spec_icon(code@),
{
    if str_eq(code, "01d") {
        String::from_str("\u{f0599}")
    } else if str_eq(code, "01n") {
        String::from_str("\u{f0594}")
    } else if str_eq(code, "02d") {
        String::from_str("\u{f0595}")
    } else if str_eq(code, "03d") {
        String::from_str("\u{f0590}")
    } else if str_eq(code, "03n") {
        String::from_str("\u{f0590}")
    } else if str_eq(code, "04d") {
        String::from_str("\u{f0590}")
    } else if str_eq(code, "04n") {
        String::from_str("\u{f0590}")
    } else if str_eq(code, "02n") {
        String::from_str("\u{f0f31}")
    } else if str_eq(code, "09") {
        String::from_str("\u{f0596}")
    } else if str_eq(code, "10d") {
        String::from_str("\u{f0f33}")
    } else if str_eq(code, "10n") {
        String::from_str("\u{e325}")
    } else if str_eq(code, "10n 11n") {
        String::from_str("\u{e322}")
    } else if str_eq(code, "10d 11d") {
        String::from_str("\u{f0f32}")
    } else if str_eq(code, "11") {
        String::from_str("\u{e315}")
    } else if str_eq(code, "13d") {
        String::from_str("\u{e35f}")
    } else if str_eq(code, "13n") {
        String::from_str("\u{e327}")
    } else if str_eq(code, "50d") {
        String::from_str("\u{e303}")
    } else if str_eq(code, "50n") {
        String::from_str("\u{e346}")
    } else {
        String::new()
    }
}

/// A condition code outside the known set still maps to a glyph, namely
/// the empty one: the table never fails.
pub proof fn lemma_unknown_code_empty_glyph(code: Seq<char>)
    requires
        !is_known_code(code),
    ensures
        spec_icon(code) == Seq::<char>::empty(),
{
}

} // verus!
