//! Assembly of the printable output from a decoded weather reading: the
//! glyph-and-temperature text line and, for the richer style, a tooltip
//! built from whichever optional fields the provider sent.

use vstd::prelude::*;
use crate::icons::icon_for;
use crate::icons::spec_icon;
use crate::output::Output;
use crate::strnum::i64_to_string;
use crate::strnum::spec_i64_string;
use vstd::string::StringExecFns;

verus! {

/// One decoded provider answer, reduced to plain values: the temperature
/// already rounded to whole degrees Celsius, the optional fields present
/// only where the provider sent them.
#[derive(Debug, Clone)]
pub struct WeatherReading {
    pub temperature_celsius: i64,
    pub feels_like_celsius: Option<i64>,
    pub condition_code: String,
    pub location_name: Option<String>,
    pub description: Option<String>,
}

/// Whether the render carries a tooltip beside the text line.
#[derive(PartialEq, Eq, Structural, Debug, Clone, Copy)]
pub enum OutputStyle {
    /// Text line only; the tooltip field stays empty.
    Plain,
    /// Text line and a tooltip from the present optional fields.
    WithTooltip,
}

/// The text line: glyph, space, whole degrees, unit.
pub open spec fn spec_text(temp: int, code: Seq<char>) -> Seq<char> {
    spec_icon(code) + " "@ + spec_i64_string(temp) + "\u{b0}C"@
}

/// The tooltip line for a location that was sent.
pub open spec fn spec_location_line(loc: Option<Seq<char>>) -> Option<Seq<char>> {
    match loc {
        Some(l) => Some("Weather in "@ + l),
        None => None,
    }
}

/// The tooltip line for a feels-like temperature that was sent.
pub open spec fn spec_feels_line(feels: Option<int>) -> Option<Seq<char>> {
    match feels {
        Some(f) => Some("Feels like: "@ + spec_i64_string(f) + "\u{b0}C"@),
        None => None,
    }
}

/// The tooltip line for a description that was sent.
pub open spec fn spec_forecast_line(desc: Option<Seq<char>>) -> Option<Seq<char>> {
    match desc {
        Some(d) => Some("Forecast: "@ + d),
        None => None,
    }
}

/// The lines that exist, joined with a line break between neighbours;
/// absent lines are left out altogether, not rendered as placeholders.
pub open spec fn spec_join3(
    a: Option<Seq<char>>,
    b: Option<Seq<char>>,
    c: Option<Seq<char>>,
) -> Seq<char> {
    match (a, b, c) {
        (Some(x), Some(y), Some(z)) => x + "\n"@ + y + "\n"@ + z,
        (Some(x), Some(y), None) => x + "\n"@ + y,
        (Some(x), None, Some(z)) => x + "\n"@ + z,
        (None, Some(y), Some(z)) => y + "\n"@ + z,
        (Some(x), None, None) => x,
        (None, Some(y), None) => y,
        (None, None, Some(z)) => z,
        (None, None, None) => Seq::<char>::empty(),
    }
}

/// The view of an optional string.
pub open spec fn opt_str_view(o: Option<String>) -> Option<Seq<char>> {
    match o {
        Some(s) => Some(s@),
        None => None,
    }
}

/// The view of an optional machine integer.
pub open spec fn opt_i64_view(o: Option<i64>) -> Option<int> {
    match o {
        Some(n) => Some(n as int),
        None => None,
    }
}

/// The whole tooltip of a reading.
pub open spec fn spec_tooltip(r: WeatherReading) -> Seq<char> {
    spec_join3(
        spec_location_line(opt_str_view(r.location_name)),
        spec_feels_line(opt_i64_view(r.feels_like_celsius)),
        spec_forecast_line(opt_str_view(r.description)),
    )
}

fn join3(a: Option<String>, b: Option<String>, c: Option<String>) -> (r: String)
    ensures
        r@ == spec_join3(opt_str_view(a), opt_str_view(b), opt_str_view(c)),
{
    match (a, b, c) {
        (Some(x), Some(y), Some(z)) => {
            let mut r = x;
            r.append("\n");
            r.append(y.as_str());
            r.append("\n");
            r.append(z.as_str());
            r
        },
        (Some(x), Some(y), None) => {
            let mut r = x;
            r.append("\n");
            r.append(y.as_str());
            r
        },
        (Some(x), None, Some(z)) => {
            let mut r = x;
            r.append("\n");
            r.append(z.as_str());
            r
        },
        (None, Some(y), Some(z)) => {
            let mut r = y;
            r.append("\n");
            r.append(z.as_str());
            r
        },
        (Some(x), None, None) => x,
        (None, Some(y), None) => y,
        (None, None, Some(z)) => z,
        (None, None, None) => String::new(),
    }
}

/// Builds the printable output of a reading: the text line always, the
/// tooltip only under the richer style.
pub fn format_reading(reading: &WeatherReading, style: OutputStyle) -> (out: Output)
    ensures
        out.text@ == spec_text(reading.temperature_celsius as int, reading.condition_code@),
        out.tooltip@ == (match style {
            OutputStyle::Plain => Seq::<char>::empty(),
            OutputStyle::WithTooltip => spec_tooltip(*reading),
        }),
{
    let mut text = icon_for(reading.condition_code.as_str());
    text.append(" ");
    let temp = i64_to_string(reading.temperature_celsius);
    text.append(temp.as_str());
    text.append("\u{b0}C");
    proof {
        assert(text@ =~= spec_text(
            reading.temperature_celsius as int,
            reading.condition_code@,
        ));
    }
    let tooltip = match style {
        OutputStyle::Plain => String::new(),
        OutputStyle::WithTooltip => {
            let loc_line = match &reading.location_name {
                Some(l) => {
                    let mut s = String::from_str("Weather in ");
                    s.append(l.as_str());
                    Some(s)
                },
                None => None,
            };
            let feels_line = match reading.feels_like_celsius {
                Some(f) => {
                    let mut s = String::from_str("Feels like: ");
                    let n = i64_to_string(f);
                    s.append(n.as_str());
                    s.append("\u{b0}C");
                    proof {
                        assert(s@ =~= spec_feels_line(Some(f as int))->0);
                    }
                    Some(s)
                },
                None => None,
            };
            let desc_line = match &reading.description {
                Some(d) => {
                    let mut s = String::from_str("Forecast: ");
                    s.append(d.as_str());
                    Some(s)
                },
                None => None,
            };
            join3(loc_line, feels_line, desc_line)
        },
    };
    Output::new(text, tooltip)
}

/// The text line shows the glyph of the condition code at its front and
/// the rounded Celsius value right after the separating space: wherever
/// the reading came from, both are visible in the rendered text.
pub proof fn lemma_text_shows_glyph_and_temperature(temp: int, code: Seq<char>)
    ensures
        spec_text(temp, code).subrange(0, spec_icon(code).len() as int) == spec_icon(code),
        spec_text(temp, code).subrange(
            spec_icon(code).len() + 1 as int,
            spec_icon(code).len() + 1 + spec_i64_string(temp).len() as int,
        ) == spec_i64_string(temp),
{
    reveal_strlit(" ");
    let s = spec_text(temp, code);
    assert(s.subrange(0, spec_icon(code).len() as int) =~= spec_icon(code));
    assert(s.subrange(
        spec_icon(code).len() + 1 as int,
        spec_icon(code).len() + 1 + spec_i64_string(temp).len() as int,
    ) =~= spec_i64_string(temp));
}

} // verus!
