use vstd::prelude::*;

use crate::text::decimal;
use crate::text::decimal_string;

verus! {

/// Whether the interpreter takes `c` as a single quote: the apostrophe, or
/// one of the four typographic single quotes U+2018 to U+201B.
pub open spec fn is_single_quote(c: char) -> bool {
    c == '\'' || c == '\u{2018}' || c == '\u{2019}' || c == '\u{201A}' || c == '\u{201B}'
}

/// `s` with each single quote doubled, as a single-quoted literal of the
/// interpreter writes it.
pub open spec fn escape_quotes(s: Seq<char>) -> Seq<char>
    decreases s.len(),
{
    if s.len() == 0 {
        Seq::empty()
    } else {
        let c = s.last();
        escape_quotes(s.drop_last()) + (if is_single_quote(c) {
            seq![c, c]
        } else {
            seq![c]
        })
    }
}

/// `s` as a single-quoted literal: every character that could end the
/// literal is doubled, so the interpreter reads it back as `s`, with no
/// variable or expression in it expanded.
pub open spec fn quoted(s: Seq<char>) -> Seq<char> {
    "'"@ + escape_quotes(s) + "'"@
}

/// The script line that sets variable `var` to the text `value`.
pub open spec fn text_binding(var: Seq<char>, value: Seq<char>) -> Seq<char> {
    "$"@ + var + " = "@ + quoted(value) + "\n"@
}

/// The script line that sets variable `var` to the number `value`.
pub open spec fn number_binding(var: Seq<char>, value: nat) -> Seq<char> {
    "$"@ + var + " = "@ + decimal(value) + "\n"@
}

/// Writes `s` as a single-quoted literal.
pub fn quote(s: &str) -> (r: String)
    ensures
        r@ == quoted(s@),
{
    let n = s.unicode_len();
    let mut r = String::from_str("'");
    let mut i: usize = 0;
    while i < n
        invariant
            n == s@.len(),
            i <= n,
            r@ == "'"@ + escape_quotes(s@.subrange(0, i as int)),
        decreases n - i,
    {
        let c = s.get_char(i);
        let piece = s.substring_char(i, i + 1);
        r.append(piece);
        if c == '\'' || c == '\u{2018}' || c == '\u{2019}' || c == '\u{201A}' || c == '\u{201B}' {
            r.append(piece);
        }
        proof {
            let t = s@.subrange(0, i + 1);
            assert(t.drop_last() =~= s@.subrange(0, i as int));
            assert(t.last() == c);
            assert(piece@ =~= seq![c]);
        }
        i = i + 1;
    }
    assert(s@.subrange(0, n as int) =~= s@);
    r.append("'");
    r
}

/// Writes the line that sets variable `var` to the text `value`.
pub fn bind_text(var: &str, value: &str) -> (r: String)
    ensures
        r@ == text_binding(var@, value@),
{
    let mut r = String::from_str("$");
    r.append(var);
    r.append(" = ");
    let q = quote(value);
    r.append(q.as_str());
    r.append("\n");
    r
}

/// Writes the line that sets variable `var` to the number `value`.
pub fn bind_number(var: &str, value: u32) -> (r: String)
    ensures
        r@ == number_binding(var@, value as nat),
{
    let mut r = String::from_str("$");
    r.append(var);
    r.append(" = ");
    let d = decimal_string(value);
    r.append(d.as_str());
    r.append("\n");
    r
}

} // verus!
