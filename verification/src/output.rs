//! The final render: a one-line JSON object with a `text` and a `tooltip`
//! field, and a decoder of exactly that line shape. Fields are escaped on
//! the way in and unescaped on the way out, so every pair of fields
//! renders to one line and decodes back to itself.

use vstd::prelude::*;
use vstd::string::StrSliceExecFns;
use vstd::string::StringExecFns;

verus! {

/// What one invocation prints.
#[derive(Debug, Clone)]
pub struct Output {
    pub text: String,
    pub tooltip: String,
}

/// No double-quote character anywhere. Escaped fields are quote-free,
/// which is what lets the decoder cut the line at its quotes.
pub open spec fn quote_free(s: Seq<char>) -> bool {
    forall|i: int| 0 <= i < s.len() ==> s[i] != '"'
}

/// The escape of one character: the double quote becomes its unicode
/// escape (so escaped text holds no quote at all), the backslash and the
/// common control characters their two-character escapes, everything
/// else stands as it is.
pub open spec fn escape_char(c: char) -> Seq<char> {
    if c == '"' {
        seq!['\\', 'u', '0', '0', '2', '2']
    } else if c == '\\' {
        seq!['\\', '\\']
    } else if c == '\n' {
        seq!['\\', 'n']
    } else if c == '\r' {
        seq!['\\', 'r']
    } else if c == '\t' {
        seq!['\\', 't']
    } else {
        seq![c]
    }
}

/// The escape of a whole field.
pub open spec fn spec_escape(s: Seq<char>) -> Seq<char>
    decreases s.len(),
{
    if s.len() == 0 {
        Seq::<char>::empty()
    } else {
        escape_char(s[0]) + spec_escape(s.drop_first())
    }
}

/// The inverse reading: backslash escapes are folded back into their
/// characters; a lone or unknown escape makes the text undecodable.
pub open spec fn spec_unescape(e: Seq<char>) -> Option<Seq<char>>
    decreases e.len(),
{
    if e.len() == 0 {
        Some(Seq::<char>::empty())
    } else if e[0] != '\\' {
        match spec_unescape(e.drop_first()) {
            Some(r) => Some(seq![e[0]] + r),
            None => None,
        }
    } else if e.len() >= 2 && e[1] == '\\' {
        match spec_unescape(e.skip(2)) {
            Some(r) => Some(seq!['\\'] + r),
            None => None,
        }
    } else if e.len() >= 2 && e[1] == 'n' {
        match spec_unescape(e.skip(2)) {
            Some(r) => Some(seq!['\n'] + r),
            None => None,
        }
    } else if e.len() >= 2 && e[1] == 'r' {
        match spec_unescape(e.skip(2)) {
            Some(r) => Some(seq!['\r'] + r),
            None => None,
        }
    } else if e.len() >= 2 && e[1] == 't' {
        match spec_unescape(e.skip(2)) {
            Some(r) => Some(seq!['\t'] + r),
            None => None,
        }
    } else if e.len() >= 6 && e[1] == 'u' && e[2] == '0' && e[3] == '0' && e[4] == '2' && e[5]
        == '2' {
        match spec_unescape(e.skip(6)) {
            Some(r) => Some(seq!['"'] + r),
            None => None,
        }
    } else {
        None
    }
}

/// Round trip of one field: its escape holds no double quote, and
/// unescaping the escape gives the field back — for every field.
pub proof fn lemma_field_round_trip(s: Seq<char>)
    ensures
        quote_free(spec_escape(s)),
        spec_unescape(spec_escape(s)) == Some(s),
    decreases s.len(),
{
    if s.len() == 0 {
    } else {
        let c = s[0];
        let e = spec_escape(s);
        let e1 = spec_escape(s.drop_first());
        lemma_field_round_trip(s.drop_first());
        assert(e == escape_char(c) + e1);
        if c == '"' {
            assert(e.skip(6) =~= e1);
            assert(seq!['"'] + s.drop_first() =~= s);
        } else if c == '\\' {
            assert(e.skip(2) =~= e1);
            assert(seq!['\\'] + s.drop_first() =~= s);
        } else if c == '\n' {
            assert(e.skip(2) =~= e1);
            assert(seq!['\n'] + s.drop_first() =~= s);
        } else if c == '\r' {
            assert(e.skip(2) =~= e1);
            assert(seq!['\r'] + s.drop_first() =~= s);
        } else if c == '\t' {
            assert(e.skip(2) =~= e1);
            assert(seq!['\t'] + s.drop_first() =~= s);
        } else {
            assert(e.drop_first() =~= e1);
            assert(seq![c] + s.drop_first() =~= s);
        }
        assert forall|i: int| 0 <= i < e.len() implies e[i] != '"' by {
            if i >= escape_char(c).len() {
                assert(e[i] == e1[i - escape_char(c).len()]);
            }
        }
    }
}

proof fn lemma_escape_push(s: Seq<char>, c: char)
    ensures
        spec_escape(s.push(c)) == spec_escape(s) + escape_char(c),
    decreases s.len(),
{
    if s.len() == 0 {
        assert(s.push(c)[0] == c);
        assert(spec_escape(s.push(c)) == escape_char(c) + spec_escape(s.push(c).drop_first()));
        assert(s.push(c).drop_first() =~= Seq::<char>::empty());
        assert(spec_escape(Seq::<char>::empty()) == Seq::<char>::empty());
        assert(spec_escape(s.push(c)) =~= spec_escape(s) + escape_char(c));
    } else {
        assert(s.push(c).drop_first() =~= s.drop_first().push(c));
        assert(s.push(c)[0] == s[0]);
        lemma_escape_push(s.drop_first(), c);
        assert(spec_escape(s.push(c)) == escape_char(s[0]) + (spec_escape(s.drop_first())
            + escape_char(c)));
        assert(spec_escape(s.push(c)) =~= spec_escape(s) + escape_char(c));
    }
}

/// Escapes one field for the rendered line.
fn escape_field(s: &str) -> (r: String)
    ensures
        r@ == spec_escape(s@),
{
    let n = s.unicode_len();
    let mut r = String::new();
    let mut i: usize = 0;
    while i < n
        invariant
            0 <= i <= n,
            n == s@.len(),
            r@ == spec_escape(s@.take(i as int)),
        decreases n - i,
    {
        let c = s.get_char(i);
        if c == '"' {
            r.append("\\u0022");
            proof {
                reveal_strlit("\\u0022");
            }
        } else if c == '\\' {
            r.append("\\\\");
            proof {
                reveal_strlit("\\\\");
            }
        } else if c == '\n' {
            r.append("\\n");
            proof {
                reveal_strlit("\\n");
            }
        } else if c == '\r' {
            r.append("\\r");
            proof {
                reveal_strlit("\\r");
            }
        } else if c == '\t' {
            r.append("\\t");
            proof {
                reveal_strlit("\\t");
            }
        } else {
            r.append(s.substring_char(i, i + 1));
        }
        proof {
            lemma_escape_push(s@.take(i as int), s@[i as int]);
            assert(s@.take(i as int).push(s@[i as int]) =~= s@.take(i + 1 as int));
            assert(r@ =~= spec_escape(s@.take(i + 1 as int)));
        }
        i += 1;
    }
    proof {
        assert(s@.take(n as int) =~= s@);
    }
    r
}

/// Folds the escapes of one raw segment back into its field.
fn unescape_field(s: &str) -> (r: Option<String>)
    ensures
        (match r {
            Some(u) => spec_unescape(s@) == Some(u@),
            None => spec_unescape(s@) is None,
        }),
{
    let n = s.unicode_len();
    let mut out = String::new();
    let mut i: usize = 0;
    proof {
        assert(s@.skip(0) =~= s@);
        if spec_unescape(s@) is Some {
            assert(Seq::<char>::empty() + spec_unescape(s@)->0 =~= spec_unescape(s@)->0);
        }
    }
    while i < n
        invariant
            0 <= i <= n,
            n == s@.len(),
            spec_unescape(s@) == (match spec_unescape(s@.skip(i as int)) {
                Some(rest) => Some(out@ + rest),
                None => None::<Seq<char>>,
            }),
        decreases n - i,
    {
        let ghost out0 = out@;
        let c = s.get_char(i);
        if c != '\\' {
            out.append(s.substring_char(i, i + 1));
            proof {
                assert(s@.skip(i as int).drop_first() =~= s@.skip(i + 1 as int));
                if spec_unescape(s@.skip(i + 1 as int)) is Some {
                    let rest = spec_unescape(s@.skip(i + 1 as int))->0;
                    assert(out0 + (seq![s@[i as int]] + rest) =~= out@ + rest);
                }
            }
            i += 1;
        } else if n - i > 1 {
            let c2 = s.get_char(i + 1);
            if c2 == '\\' || c2 == 'n' || c2 == 'r' || c2 == 't' {
                if c2 == '\\' {
                    out.append("\\");
                    proof {
                        reveal_strlit("\\");
                    }
                } else if c2 == 'n' {
                    out.append("\n");
                    proof {
                        reveal_strlit("\n");
                    }
                } else if c2 == 'r' {
                    out.append("\r");
                    proof {
                        reveal_strlit("\r");
                    }
                } else {
                    out.append("\t");
                    proof {
                        reveal_strlit("\t");
                    }
                }
                proof {
                    assert(s@.skip(i as int).skip(2) =~= s@.skip(i + 2 as int));
                    if spec_unescape(s@.skip(i + 2 as int)) is Some {
                        let rest = spec_unescape(s@.skip(i + 2 as int))->0;
                        assert(out@ =~= out0.push(out@[out0.len() as int]));
                        assert(out0 + (seq![out@[out0.len() as int]] + rest) =~= out@ + rest);
                    }
                }
                i += 2;
            } else if c2 == 'u' && n - i > 5 && s.get_char(i + 2) == '0' && s.get_char(i + 3)
                == '0' && s.get_char(i + 4) == '2' && s.get_char(i + 5) == '2' {
                out.append("\"");
                proof {
                    reveal_strlit("\"");
                    assert(s@.skip(i as int).skip(6) =~= s@.skip(i + 6 as int));
                    if spec_unescape(s@.skip(i + 6 as int)) is Some {
                        let rest = spec_unescape(s@.skip(i + 6 as int))->0;
                        assert(out0 + (seq!['"'] + rest) =~= out@ + rest);
                    }
                }
                i += 6;
            } else {
                proof {
                    assert(spec_unescape(s@.skip(i as int)) is None);
                }
                return None;
            }
        } else {
            proof {
                assert(s@.skip(i as int).len() == 1);
                assert(spec_unescape(s@.skip(i as int)) is None);
            }
            return None;
        }
    }
    proof {
        assert(s@.skip(n as int) =~= Seq::<char>::empty());
        assert(out@ + Seq::<char>::empty() =~= out@);
    }
    Some(out)
}

/// The fixed opening of the rendered line.
pub open spec fn render_prefix() -> Seq<char> {
    "{ \"text\": \""@
}

/// The fixed middle of the rendered line, between the two fields.
pub open spec fn render_mid() -> Seq<char> {
    "\", \"tooltip\": \""@
}

/// The fixed closing of the rendered line.
pub open spec fn render_suffix() -> Seq<char> {
    "\" }\n"@
}

/// The rendered line around a pair of already-escaped segments.
pub open spec fn spec_render(t: Seq<char>, p: Seq<char>) -> Seq<char> {
    render_prefix() + t + render_mid() + p + render_suffix()
}

/// Where each piece of a rendered line sits.
proof fn lemma_render_shape(t: Seq<char>, p: Seq<char>)
    ensures
        spec_render(t, p).len() == 30 + t.len() + p.len(),
        spec_render(t, p).subrange(0, 11) == render_prefix(),
        spec_render(t, p).subrange(11, 11 + t.len() as int) == t,
        spec_render(t, p).subrange(11 + t.len() as int, 26 + t.len() as int) == render_mid(),
        spec_render(t, p).subrange(26 + t.len() as int, 26 + t.len() + p.len() as int) == p,
        spec_render(t, p).subrange(
            26 + t.len() + p.len() as int,
            30 + t.len() + p.len() as int,
        ) == render_suffix(),
        spec_render(t, p)[11 + t.len() as int] == '"',
        spec_render(t, p)[26 + t.len() + p.len() as int] == '"',
{
    reveal_strlit("{ \"text\": \"");
    reveal_strlit("\", \"tooltip\": \"");
    reveal_strlit("\" }\n");
    let s = spec_render(t, p);
    assert(render_prefix().len() == 11);
    assert(render_mid().len() == 15);
    assert(render_suffix().len() == 4);
    assert(s.subrange(0, 11) =~= render_prefix());
    assert(s.subrange(11, 11 + t.len() as int) =~= t);
    assert(s.subrange(11 + t.len() as int, 26 + t.len() as int) =~= render_mid());
    assert(s.subrange(26 + t.len() as int, 26 + t.len() + p.len() as int) =~= p);
    assert(s.subrange(26 + t.len() + p.len() as int, 30 + t.len() + p.len() as int)
        =~= render_suffix());
    assert(render_mid()[0] == '"');
    assert(render_suffix()[0] == '"');
    assert(s[11 + t.len() as int] == '"');
    assert(s[26 + t.len() + p.len() as int] == '"');
}

/// The shape facts a refusal needs: on quote-free segments, the line's
/// quotes stand exactly at the ends of the two segments.
proof fn lemma_render_quotes(t: Seq<char>, p: Seq<char>)
    requires
        quote_free(t),
        quote_free(p),
    ensures
        spec_render(t, p).len() == 30 + t.len() + p.len(),
        spec_render(t, p).subrange(0, 11) == render_prefix(),
        spec_render(t, p)[11 + t.len() as int] == '"',
        forall|j: int| 11 <= j < 11 + t.len() ==> spec_render(t, p)[j] != '"',
        spec_render(t, p).subrange(11 + t.len() as int, 26 + t.len() as int) == render_mid(),
        spec_render(t, p)[26 + t.len() + p.len() as int] == '"',
        forall|j: int|
            26 + t.len() <= j < 26 + t.len() + p.len() ==> spec_render(t, p)[j] != '"',
        spec_render(t, p).subrange(
            26 + t.len() + p.len() as int,
            30 + t.len() + p.len() as int,
        ) == render_suffix(),
{
    lemma_render_shape(t, p);
    let s = spec_render(t, p);
    assert forall|j: int| 11 <= j < 11 + t.len() implies s[j] != '"' by {
        assert(s.subrange(11, 11 + t.len() as int)[j - 11] == s[j]);
    }
    assert forall|j: int| 26 + t.len() <= j < 26 + t.len() + p.len() implies s[j] != '"' by {
        assert(s.subrange(26 + t.len() as int, 26 + t.len() + p.len() as int)[j - 26 - t.len()]
            == s[j]);
    }
}

/// The render is injective on quote-free segments: one line comes from
/// one pair of raw segments, and so from one pair of fields.
pub proof fn lemma_render_round_trip(t1: Seq<char>, p1: Seq<char>, t2: Seq<char>, p2: Seq<char>)
    requires
        quote_free(t1),
        quote_free(p1),
        quote_free(t2),
        quote_free(p2),
        spec_render(t1, p1) == spec_render(t2, p2),
    ensures
        t1 == t2,
        p1 == p2,
{
    lemma_render_shape(t1, p1);
    lemma_render_shape(t2, p2);
    let s = spec_render(t1, p1);
    if t1.len() < t2.len() {
        assert(s[11 + t1.len() as int] == '"');
        assert(s.subrange(11, 11 + t2.len() as int) == t2);
        assert(t2[t1.len() as int] == s.subrange(11, 11 + t2.len() as int)[t1.len() as int]);
        assert(false);
    }
    if t2.len() < t1.len() {
        assert(s[11 + t2.len() as int] == '"');
        assert(s.subrange(11, 11 + t1.len() as int) == t1);
        assert(t1[t2.len() as int] == s.subrange(11, 11 + t1.len() as int)[t2.len() as int]);
        assert(false);
    }
    assert(t1.len() == t2.len());
    assert(t1 == t2);
    assert(p1.len() == p2.len());
    assert(p1 == p2);
}

/// True when `pat` occurs in `s` at position `at`.
fn match_at(s: &str, at: usize, pat: &str) -> (r: bool)
    requires
        at <= s@.len(),
    ensures
        r <==> (at + pat@.len() <= s@.len() && s@.subrange(at as int, at + pat@.len()) == pat@),
{
    let n = s.unicode_len();
    let m = pat.unicode_len();
    if m > n - at {
        return false;
    }
    let mut j: usize = 0;
    while j < m
        invariant
            0 <= j <= m,
            m == pat@.len(),
            n == s@.len(),
            at + m <= n,
            forall|k: int| 0 <= k < j ==> s@[at + k] == pat@[k],
        decreases m - j,
    {
        if s.get_char(at + j) != pat.get_char(j) {
            proof {
                assert(s@.subrange(at as int, at + pat@.len())[j as int] != pat@[j as int]);
            }
            return false;
        }
        j += 1;
    }
    proof {
        assert(s@.subrange(at as int, at + pat@.len()) =~= pat@);
    }
    true
}

/// The position of the first double quote at or after `from`, if any.
fn find_quote(s: &str, from: usize) -> (r: Option<usize>)
    requires
        from <= s@.len(),
    ensures
        (match r {
            Some(q) => from <= q < s@.len() && s@[q as int] == '"' && (forall|j: int|
                from <= j < q ==> s@[j] != '"'),
            None => forall|j: int| from <= j < s@.len() ==> s@[j] != '"',
        }),
{
    let n = s.unicode_len();
    let mut i: usize = from;
    while i < n
        invariant
            from <= i <= n,
            n == s@.len(),
            forall|j: int| from <= j < i ==> s@[j] != '"',
        decreases n - i,
    {
        if s.get_char(i) == '"' {
            return Some(i);
        }
        i += 1;
    }
    None
}

impl Output {
    /// Packs the two fields of a render.
    pub fn new(text: String, tooltip: String) -> (r: Output)
        ensures
            r.text == text,
            r.tooltip == tooltip,
    {
        Output { text, tooltip }
    }

    /// Renders the one-line JSON form the status-bar host reads, the
    /// fields escaped.
    pub fn to_json_line(&self) -> (r: String)
        ensures
            r@ == spec_render(spec_escape(self.text@), spec_escape(self.tooltip@)),
    {
        let mut r = String::from_str("{ \"text\": \"");
        let et = escape_field(self.text.as_str());
        r.append(et.as_str());
        r.append("\", \"tooltip\": \"");
        let ep = escape_field(self.tooltip.as_str());
        r.append(ep.as_str());
        r.append("\" }\n");
        proof {
            assert(r@ =~= spec_render(spec_escape(self.text@), spec_escape(self.tooltip@)));
        }
        r
    }
}

/// Decodes a line of exactly the rendered shape back into its two
/// fields, unescaping them; refuses every line that no decodable pair
/// of raw segments renders to.
pub fn parse_output_line(s: &str) -> (r: Option<Output>)
    ensures
        (match r {
            Some(o) => exists|rt: Seq<char>, rp: Seq<char>|
                {
                    &&& s@ == #[trigger] spec_render(rt, rp)
                    &&& quote_free(rt)
                    &&& quote_free(rp)
                    &&& spec_unescape(rt) == Some(o.text@)
                    &&& spec_unescape(rp) == Some(o.tooltip@)
                },
            None => forall|t: Seq<char>, p: Seq<char>|
                quote_free(t) && quote_free(p) && spec_unescape(t) is Some && spec_unescape(
                    p,
                ) is Some ==> s@ != spec_render(t, p),
        }),
{
    let n = s.unicode_len();
    proof {
        reveal_strlit("{ \"text\": \"");
        reveal_strlit("\", \"tooltip\": \"");
        reveal_strlit("\" }\n");
    }
    if !match_at(s, 0, "{ \"text\": \"") {
        proof {
            assert forall|t: Seq<char>, p: Seq<char>|
                quote_free(t) && quote_free(p) && spec_unescape(t) is Some && spec_unescape(
                    p,
                ) is Some implies s@ != spec_render(t, p) by {
                if quote_free(t) && quote_free(p) && s@ == spec_render(t, p) {
                    lemma_render_quotes(t, p);
                }
            }
        }
        return None;
    }
    let q1 = match find_quote(s, 11) {
        Some(q) => q,
        None => {
            proof {
                assert forall|t: Seq<char>, p: Seq<char>|
                    quote_free(t) && quote_free(p) && spec_unescape(t) is Some && spec_unescape(
                        p,
                    ) is Some implies s@ != spec_render(t, p) by {
                    if quote_free(t) && quote_free(p) && s@ == spec_render(t, p) {
                        lemma_render_quotes(t, p);
                        assert(s@[11 + t.len() as int] == '"');
                    }
                }
            }
            return None;
        },
    };
    if !match_at(s, q1, "\", \"tooltip\": \"") {
        proof {
            assert forall|t: Seq<char>, p: Seq<char>|
                quote_free(t) && quote_free(p) && spec_unescape(t) is Some && spec_unescape(
                    p,
                ) is Some implies s@ != spec_render(t, p) by {
                if quote_free(t) && quote_free(p) && s@ == spec_render(t, p) {
                    lemma_render_quotes(t, p);
                    assert(q1 == 11 + t.len());
                    assert(s@.subrange(q1 as int, q1 + 15) == render_mid());
                }
            }
        }
        return None;
    }
    let q2 = match find_quote(s, q1 + 15) {
        Some(q) => q,
        None => {
            proof {
                assert forall|t: Seq<char>, p: Seq<char>|
                    quote_free(t) && quote_free(p) && spec_unescape(t) is Some && spec_unescape(
                        p,
                    ) is Some implies s@ != spec_render(t, p) by {
                    if quote_free(t) && quote_free(p) && s@ == spec_render(t, p) {
                        lemma_render_quotes(t, p);
                        assert(q1 == 11 + t.len());
                        assert(s@[26 + t.len() + p.len() as int] == '"');
                    }
                }
            }
            return None;
        },
    };
    if !match_at(s, q2, "\" }\n") {
        proof {
            assert forall|t: Seq<char>, p: Seq<char>|
                quote_free(t) && quote_free(p) && spec_unescape(t) is Some && spec_unescape(
                    p,
                ) is Some implies s@ != spec_render(t, p) by {
                if quote_free(t) && quote_free(p) && s@ == spec_render(t, p) {
                    lemma_render_quotes(t, p);
                    assert(q1 == 11 + t.len());
                    assert(s@[26 + t.len() + p.len() as int] == '"');
                    assert(q2 == 26 + t.len() + p.len());
                    assert(s@.subrange(q2 as int, q2 + 4) == render_suffix());
                }
            }
        }
        return None;
    }
    if q2 + 4 != n {
        proof {
            assert forall|t: Seq<char>, p: Seq<char>|
                quote_free(t) && quote_free(p) && spec_unescape(t) is Some && spec_unescape(
                    p,
                ) is Some implies s@ != spec_render(t, p) by {
                if quote_free(t) && quote_free(p) && s@ == spec_render(t, p) {
                    lemma_render_quotes(t, p);
                    assert(q1 == 11 + t.len());
                    assert(s@[26 + t.len() + p.len() as int] == '"');
                    assert(q2 == 26 + t.len() + p.len());
                }
            }
        }
        return None;
    }
    let raw_text = s.substring_char(11, q1);
    let raw_tooltip = s.substring_char(q1 + 15, q2);
    proof {
        assert forall|j: int| 0 <= j < raw_text@.len() implies raw_text@[j] != '"' by {
            assert(raw_text@[j] == s@[11 + j]);
        }
        assert forall|j: int| 0 <= j < raw_tooltip@.len() implies raw_tooltip@[j] != '"' by {
            assert(raw_tooltip@[j] == s@[q1 + 15 + j]);
        }
        assert(s@ =~= spec_render(raw_text@, raw_tooltip@));
    }
    let text = match unescape_field(raw_text) {
        Some(t) => t,
        None => {
            proof {
                assert forall|t: Seq<char>, p: Seq<char>|
                    quote_free(t) && quote_free(p) && spec_unescape(t) is Some && spec_unescape(
                        p,
                    ) is Some implies s@ != spec_render(t, p) by {
                    if quote_free(t) && quote_free(p) && spec_unescape(t) is Some && s@
                        == spec_render(t, p) {
                        lemma_render_round_trip(t, p, raw_text@, raw_tooltip@);
                    }
                }
            }
            return None;
        },
    };
    let tooltip = match unescape_field(raw_tooltip) {
        Some(p) => p,
        None => {
            proof {
                assert forall|t: Seq<char>, p: Seq<char>|
                    quote_free(t) && quote_free(p) && spec_unescape(t) is Some && spec_unescape(
                        p,
                    ) is Some implies s@ != spec_render(t, p) by {
                    if quote_free(t) && quote_free(p) && spec_unescape(p) is Some && s@
                        == spec_render(t, p) {
                        lemma_render_round_trip(t, p, raw_text@, raw_tooltip@);
                    }
                }
            }
            return None;
        },
    };
    proof {
        assert(s@ == spec_render(raw_text@, raw_tooltip@) && quote_free(raw_text@) && quote_free(
            raw_tooltip@,
        ) && spec_unescape(raw_text@) == Some(text@) && spec_unescape(raw_tooltip@) == Some(
            tooltip@,
        ));
    }
    Some(Output { text, tooltip })
}

} // verus!
