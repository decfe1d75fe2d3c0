//! The rendered output record and its serialized (JSON) form.
//!
//! The record is what the bar host consumes: the composed text plus the
//! style metadata. Its serialized form is a JSON object with the fields in
//! alphabetical key order; strings are escaped as JSON demands (quote,
//! backslash, and control characters), and absent colors serialize as
//! `null`.

use vstd::prelude::*;
use crate::text::push_char;

verus! {

/// The `min_width` hint of a record whose content is nonempty.
pub const NONEMPTY_MIN_WIDTH: u64 = 240;

/// The rendered output record consumed by the bar host.
pub struct Rendered {
    /// Icon glyph (or one blank placeholder), visible window, trailing space.
    pub full_text: String,
    /// Always false here.
    pub separator: bool,
    /// Always zero here.
    pub separator_block_width: u64,
    /// Zero when the content is empty, a fixed nonzero constant otherwise.
    pub min_width: u64,
    /// Always "left" here.
    pub align: String,
    /// Background color from the theme; `None` when the theme lacks the key.
    pub background: Option<String>,
    /// Foreground color from the theme; `None` when the theme lacks the key.
    pub color: Option<String>,
}

/// The mathematical model of a rendered record.
pub ghost struct RenderModel {
    pub full_text: Seq<char>,
    pub separator: bool,
    pub separator_block_width: u64,
    pub min_width: u64,
    pub align: Seq<char>,
    pub background: Option<Seq<char>>,
    pub color: Option<Seq<char>>,
}

impl View for Rendered {
    type V = RenderModel;

    open spec fn view(&self) -> RenderModel {
        RenderModel {
            full_text: self.full_text@,
            separator: self.separator,
            separator_block_width: self.separator_block_width,
            min_width: self.min_width,
            align: self.align@,
            background: match self.background {
                Some(s) => Some(s@),
                None => None,
            },
            color: match self.color {
                Some(s) => Some(s@),
                None => None,
            },
        }
    }
}

/// The decimal digit character for `d`.
pub open spec fn dec_digit(d: int) -> char {
    if d == 0 {
        '0'
    } else if d == 1 {
        '1'
    } else if d == 2 {
        '2'
    } else if d == 3 {
        '3'
    } else if d == 4 {
        '4'
    } else if d == 5 {
        '5'
    } else if d == 6 {
        '6'
    } else if d == 7 {
        '7'
    } else if d == 8 {
        '8'
    } else {
        '9'
    }
}

/// The decimal representation of a non-negative integer, most significant
/// digit first, with no leading zeros (a single `0` for zero).
pub open spec fn dec_rep(n: int) -> Seq<char>
    recommends
        n >= 0,
    decreases n,
{
    if n < 10 {
        seq![dec_digit(n)]
    } else {
        dec_rep(n / 10).push(dec_digit(n % 10))
    }
}

/// The lower-case hexadecimal digit character for `d`.
pub open spec fn hex_digit(d: int) -> char {
    if d == 0 {
        '0'
    } else if d == 1 {
        '1'
    } else if d == 2 {
        '2'
    } else if d == 3 {
        '3'
    } else if d == 4 {
        '4'
    } else if d == 5 {
        '5'
    } else if d == 6 {
        '6'
    } else if d == 7 {
        '7'
    } else if d == 8 {
        '8'
    } else if d == 9 {
        '9'
    } else if d == 10 {
        'a'
    } else if d == 11 {
        'b'
    } else if d == 12 {
        'c'
    } else if d == 13 {
        'd'
    } else if d == 14 {
        'e'
    } else {
        'f'
    }
}

/// The JSON escape of one character: quote and backslash get a backslash,
/// the named control characters their short escapes, the remaining control
/// characters a `\u00XX` escape, and everything else stands unchanged.
pub open spec fn escape_char(c: char) -> Seq<char> {
    if c == '"' {
        seq!['\\', '"']
    } else if c == '\\' {
        seq!['\\', '\\']
    } else if c == '\u{8}' {
        seq!['\\', 'b']
    } else if c == '\t' {
        seq!['\\', 't']
    } else if c == '\n' {
        seq!['\\', 'n']
    } else if c == '\u{c}' {
        seq!['\\', 'f']
    } else if c == '\r' {
        seq!['\\', 'r']
    } else if (c as u32) < 0x20 {
        seq!['\\', 'u', '0', '0', hex_digit((c as u32) as int / 16), hex_digit((c as u32) as int % 16)]
    } else {
        seq![c]
    }
}

/// The JSON escape of a whole character sequence.
pub open spec fn json_escape(s: Seq<char>) -> Seq<char>
    decreases s.len(),
{
    if s.len() == 0 {
        Seq::empty()
    } else {
        json_escape(s.drop_last()) + escape_char(s.last())
    }
}

/// A JSON string: the escaped characters between double quotes.
pub open spec fn json_string(s: Seq<char>) -> Seq<char> {
    seq!['"'] + json_escape(s) + seq!['"']
}

/// An optional JSON string: `null` when absent.
pub open spec fn json_opt_string(s: Option<Seq<char>>) -> Seq<char> {
    match s {
        Some(v) => json_string(v),
        None => "null"@,
    }
}

/// A JSON boolean.
pub open spec fn json_bool(b: bool) -> Seq<char> {
    if b {
        "true"@
    } else {
        "false"@
    }
}

/// The serialized form of a rendered record: one JSON object, keys in
/// alphabetical order.
pub open spec fn json_of_record(r: RenderModel) -> Seq<char> {
    "{\"align\":"@ + json_string(r.align) + ",\"background\":"@ + json_opt_string(r.background)
        + ",\"color\":"@ + json_opt_string(r.color) + ",\"full_text\":"@ + json_string(r.full_text)
        + ",\"min_width\":"@ + dec_rep(r.min_width as int) + ",\"separator\":"@ + json_bool(
        r.separator,
    ) + ",\"separator_block_width\":"@ + dec_rep(r.separator_block_width as int) + "}"@
}

/// The decimal digit character for `d`, executably.
fn dec_digit_char(d: u64) -> (c: char)
    requires
        d < 10,
    ensures
        c == dec_digit(d as int),
{
    if d == 0 {
        '0'
    } else if d == 1 {
        '1'
    } else if d == 2 {
        '2'
    } else if d == 3 {
        '3'
    } else if d == 4 {
        '4'
    } else if d == 5 {
        '5'
    } else if d == 6 {
        '6'
    } else if d == 7 {
        '7'
    } else if d == 8 {
        '8'
    } else {
        '9'
    }
}

/// The lower-case hexadecimal digit character for `d`, executably.
fn hex_digit_char(d: u32) -> (c: char)
    requires
        d < 16,
    ensures
        c == hex_digit(d as int),
{
    if d < 10 {
        dec_digit_char(d as u64)
    } else if d == 10 {
        'a'
    } else if d == 11 {
        'b'
    } else if d == 12 {
        'c'
    } else if d == 13 {
        'd'
    } else if d == 14 {
        'e'
    } else {
        'f'
    }
}

/// Appends the decimal representation of `n` to `out`.
fn push_dec(out: &mut String, n: u64)
    ensures
        final(out)@ == old(out)@ + dec_rep(n as int),
    decreases n,
{
    if n < 10 {
        push_char(out, dec_digit_char(n));
    } else {
        push_dec(out, n / 10);
        push_char(out, dec_digit_char(n % 10));
        proof {
            assert((old(out)@ + dec_rep(n as int / 10)) + seq![dec_digit(n as int % 10)]
                =~= old(out)@ + dec_rep(n as int));
        }
    }
}

/// Appends the JSON escape of one character to `out`.
fn push_escaped_char(out: &mut String, c: char)
    ensures
        final(out)@ == old(out)@ + escape_char(c),
{
    if c == '"' {
        push_char(out, '\\');
        push_char(out, '"');
    } else if c == '\\' {
        push_char(out, '\\');
        push_char(out, '\\');
    } else if c == '\u{8}' {
        push_char(out, '\\');
        push_char(out, 'b');
    } else if c == '\t' {
        push_char(out, '\\');
        push_char(out, 't');
    } else if c == '\n' {
        push_char(out, '\\');
        push_char(out, 'n');
    } else if c == '\u{c}' {
        push_char(out, '\\');
        push_char(out, 'f');
    } else if c == '\r' {
        push_char(out, '\\');
        push_char(out, 'r');
    } else if (c as u32) < 0x20 {
        let d = c as u32;
        push_char(out, '\\');
        push_char(out, 'u');
        push_char(out, '0');
        push_char(out, '0');
        push_char(out, hex_digit_char(d / 16));
        push_char(out, hex_digit_char(d % 16));
    } else {
        push_char(out, c);
    }
    proof {
        assert(out@ =~= old(out)@ + escape_char(c));
    }
}

/// Appends the JSON escape of all of `s` to `out`.
fn push_escaped(out: &mut String, s: &str)
    ensures
        final(out)@ == old(out)@ + json_escape(s@),
{
    let n = s.unicode_len();
    proof {
        assert(s@.subrange(0, 0) =~= Seq::<char>::empty());
        assert(old(out)@ + json_escape(s@.subrange(0, 0)) =~= old(out)@);
    }
    let mut i: usize = 0;
    while i < n
        invariant
            i <= n,
            n == s@.len(),
            out@ == old(out)@ + json_escape(s@.subrange(0, i as int)),
        decreases n - i,
    {
        push_escaped_char(out, s.get_char(i));
        proof {
            let pre = s@.subrange(0, i + 1);
            assert(pre.drop_last() =~= s@.subrange(0, i as int));
            assert(pre.last() == s@[i as int]);
            assert((old(out)@ + json_escape(s@.subrange(0, i as int))) + escape_char(s@[i as int])
                =~= old(out)@ + json_escape(pre));
        }
        i += 1;
    }
    proof {
        assert(s@.subrange(0, n as int) =~= s@);
    }
}

/// Appends `s` as a JSON string (quoted and escaped) to `out`.
fn push_json_string(out: &mut String, s: &str)
    ensures
        final(out)@ == old(out)@ + json_string(s@),
{
    push_char(out, '"');
    push_escaped(out, s);
    push_char(out, '"');
    proof {
        assert(((old(out)@ + seq!['"']) + json_escape(s@)) + seq!['"']
            =~= old(out)@ + json_string(s@));
    }
}

/// Appends `s` as a JSON string or, when absent, `null`.
fn push_json_opt_string(out: &mut String, s: &Option<String>)
    ensures
        final(out)@ == old(out)@ + json_opt_string(match s {
            Some(v) => Some(v@),
            None => None,
        }),
{
    match s {
        Some(v) => push_json_string(out, v.as_str()),
        None => out.append("null"),
    }
}

/// The serialized form of `r`: computes `json_of_record(r@)`.
pub fn render_json(r: &Rendered) -> (out: String)
    ensures
        out@ == json_of_record(r@),
{
    let mut out = String::new();
    out.append("{\"align\":");
    proof {
        assert(Seq::<char>::empty() + "{\"align\":"@ =~= "{\"align\":"@);
    }
    push_json_string(&mut out, r.align.as_str());
    out.append(",\"background\":");
    push_json_opt_string(&mut out, &r.background);
    out.append(",\"color\":");
    push_json_opt_string(&mut out, &r.color);
    out.append(",\"full_text\":");
    push_json_string(&mut out, r.full_text.as_str());
    out.append(",\"min_width\":");
    push_dec(&mut out, r.min_width);
    out.append(",\"separator\":");
    if r.separator {
        out.append("true");
    } else {
        out.append("false");
    }
    out.append(",\"separator_block_width\":");
    push_dec(&mut out, r.separator_block_width);
    out.append("}");
    out
}

} // verus!
