//! Quoting a Rust string as a JavaScript string literal, and what such a
//! literal reads back as.

use vstd::prelude::*;

verus! {

/// The lower-case hexadecimal digit of `n` (for `0 <= n < 16`).
pub open spec fn hex_digit(n: u32) -> char {
    if n < 10 {
        (48 + n) as char
    } else {
        (87 + n) as char
    }
}

/// The value of a hexadecimal digit, if `c` is one (either case).
pub open spec fn hex_value(c: char) -> Option<u32> {
    if '0' <= c && c <= '9' {
        Some((c as u32 - 48) as u32)
    } else if 'a' <= c && c <= 'f' {
        Some((c as u32 - 87) as u32)
    } else if 'A' <= c && c <= 'F' {
        Some((c as u32 - 55) as u32)
    } else {
        None
    }
}

/// How one character is written inside the quotes: backslash, double quote,
/// newline, carriage return and tab get their short escapes, the remaining
/// control characters below U+0020 a four-digit `\u` escape, and every other
/// character stands for itself.
pub open spec fn js_escape_char(c: char) -> Seq<char> {
    if c == '\\' {
        seq!['\\', '\\']
    } else if c == '"' {
        seq!['\\', '"']
    } else if c == '\n' {
        seq!['\\', 'n']
    } else if c == '\r' {
        seq!['\\', 'r']
    } else if c == '\t' {
        seq!['\\', 't']
    } else if (c as u32) < 32 {
        unicode_escape(c)
    } else {
        seq![c]
    }
}

/// The escaped form of a whole character sequence.
pub open spec fn js_escape(s: Seq<char>) -> Seq<char>
    decreases s.len(),
{
    if s.len() == 0 {
        Seq::empty()
    } else {
        js_escape_char(s[0]) + js_escape(s.drop_first())
    }
}

/// The double-quoted JavaScript literal for `s`.
pub open spec fn js_quoted(s: Seq<char>) -> Seq<char> {
    seq!['"'] + js_escape(s) + seq!['"']
}

/// The character that a one-letter escape `\e` stands for in a JavaScript
/// string literal, for the escapes `\\`, `\"`, `\n`, `\r`, `\t`, `\b` and `\f`.
pub open spec fn js_simple_unescape(e: char) -> Option<char> {
    if e == '\\' {
        Some('\\')
    } else if e == '"' {
        Some('"')
    } else if e == 'n' {
        Some('\n')
    } else if e == 'r' {
        Some('\r')
    } else if e == 't' {
        Some('\t')
    } else if e == 'b' {
        Some(8 as char)
    } else if e == 'f' {
        Some(12 as char)
    } else {
        None
    }
}

/// The value of four hexadecimal digits starting at `t[1]`, as in `\uXXXX`.
pub open spec fn hex4_value(t: Seq<char>) -> Option<u32>
    recommends
        t.len() >= 5,
{
    match (hex_value(t[1]), hex_value(t[2]), hex_value(t[3]), hex_value(t[4])) {
        (Some(a), Some(b), Some(c), Some(d)) => Some((((a * 16 + b) * 16 + c) * 16 + d) as u32),
        _ => None,
    }
}

/// What the body of a double-quoted JavaScript string literal (the text
/// between the quotes) reads back as, for bodies made of plain characters
/// and the escapes of [`js_simple_unescape`] and `\uXXXX`; `None` for a
/// body that ends the literal early or holds another escape.
pub open spec fn js_unescape(t: Seq<char>) -> Option<Seq<char>>
    decreases t.len(),
{
    if t.len() == 0 {
        Some(Seq::empty())
    } else if t[0] == '\\' {
        if t.len() >= 2 && js_simple_unescape(t[1]) is Some {
            match js_unescape(t.skip(2)) {
                Some(rest) => Some(seq![js_simple_unescape(t[1])->0] + rest),
                None => None,
            }
        } else if t.len() >= 6 && t[1] == 'u' && hex4_value(t.skip(1)) is Some {
            match js_unescape(t.skip(6)) {
                Some(rest) => Some(seq![(hex4_value(t.skip(1))->0) as char] + rest),
                None => None,
            }
        } else {
            None
        }
    } else if t[0] == '"' || t[0] == '\n' || t[0] == '\r' {
        None
    } else {
        match js_unescape(t.drop_first()) {
            Some(rest) => Some(seq![t[0]] + rest),
            None => None,
        }
    }
}

/// What a double-quoted JavaScript string literal evaluates to.
pub open spec fn js_literal_value(lit: Seq<char>) -> Option<Seq<char>> {
    if lit.len() >= 2 && lit[0] == '"' && lit[lit.len() - 1] == '"' {
        js_unescape(lit.subrange(1, lit.len() - 1))
    } else {
        None
    }
}

proof fn lemma_js_escape_append(a: Seq<char>, b: Seq<char>)
    ensures
        js_escape(a + b) == js_escape(a) + js_escape(b),
    decreases a.len(),
{
    if a.len() == 0 {
        assert(a + b =~= b);
        assert(js_escape(a) =~= Seq::<char>::empty());
        assert(js_escape(a) + js_escape(b) =~= js_escape(b));
    } else {
        assert((a + b).drop_first() =~= a.drop_first() + b);
        assert((a + b)[0] == a[0]);
        lemma_js_escape_append(a.drop_first(), b);
        assert(js_escape(a + b) =~= js_escape_char(a[0]) + (js_escape(a.drop_first()) + js_escape(
            b,
        )));
    }
}

proof fn lemma_js_escape_push(s: Seq<char>, c: char)
    ensures
        js_escape(s.push(c)) == js_escape(s) + js_escape_char(c),
{
    lemma_js_escape_append(s, seq![c]);
    assert(s + seq![c] =~= s.push(c));
    assert(seq![c].drop_first() =~= Seq::<char>::empty());
    assert(js_escape(seq![c].drop_first()) =~= Seq::<char>::empty());
    assert(js_escape(seq![c]) =~= js_escape_char(c) + js_escape(seq![c].drop_first()));
    assert(js_escape(seq![c]) =~= js_escape_char(c));
}

pub(crate) proof fn lemma_hex_digit_value(n: u32)
    requires
        n < 16,
    ensures
        hex_value(hex_digit(n)) == Some(n),
        hex_digit(n) as u32 >= 32,
{
}

/// The `\u00XX` escape of a character below U+0020.
pub open spec fn unicode_escape(c: char) -> Seq<char> {
    seq!['\\', 'u', '0', '0', hex_digit((c as u32) / 16), hex_digit((c as u32) % 16)]
}

/// `piece` is a way to write `c` inside a double-quoted JavaScript string
/// literal: a one-letter escape that stands for `c`, the `\u00XX` escape of
/// a control character, or `c` itself where it needs no escape.
pub open spec fn js_encodes(piece: Seq<char>, c: char) -> bool {
    ||| piece.len() == 2 && piece[0] == '\\' && js_simple_unescape(piece[1]) == Some(c)
    ||| (c as u32) < 32 && piece == unicode_escape(c)
    ||| piece == seq![c] && c != '\\' && c != '"' && c != '\n' && c != '\r'
}

/// A literal body that starts with a piece that writes `c` reads back as
/// `c` followed by what the rest reads back as.
pub(crate) proof fn lemma_unescape_piece(piece: Seq<char>, c: char, t: Seq<char>)
    requires
        js_encodes(piece, c),
    ensures
        js_unescape(piece + t) == match js_unescape(t) {
            Some(rest) => Some(seq![c] + rest),
            None => None::<Seq<char>>,
        },
{
    let u = piece + t;
    if piece.len() == 2 && piece[0] == '\\' && js_simple_unescape(piece[1]) == Some(c) {
        assert(u.skip(2) =~= t);
        assert(u[0] == '\\');
        assert(u[1] == piece[1]);
    } else if (c as u32) < 32 && piece == unicode_escape(c) {
        let code = c as u32;
        lemma_hex_digit_value(code / 16);
        lemma_hex_digit_value(code % 16);
        assert(u.skip(6) =~= t);
        assert(u[0] == '\\');
        assert(u[1] == 'u');
        assert(js_simple_unescape(u[1]) is None);
        let w = u.skip(1);
        assert(w[1] == '0' && w[2] == '0');
        assert(w[3] == hex_digit(code / 16) && w[4] == hex_digit(code % 16));
        assert(hex4_value(w) == Some((((0 * 16 + 0) * 16 + code / 16) * 16 + code % 16) as u32));
        assert((((0 * 16 + 0) * 16 + code / 16) * 16 + code % 16) == code);
        assert((code as char) == c);
    } else {
        assert(u.drop_first() =~= t);
        assert(u[0] == c);
    }
}

proof fn lemma_unescape_after_char(c: char, t: Seq<char>)
    ensures
        js_unescape(js_escape_char(c) + t) == match js_unescape(t) {
            Some(rest) => Some(seq![c] + rest),
            None => None::<Seq<char>>,
        },
{
    lemma_unescape_piece(js_escape_char(c), c, t);
}

proof fn lemma_unescape_escape(s: Seq<char>)
    ensures
        js_unescape(js_escape(s)) == Some(s),
    decreases s.len(),
{
    if s.len() == 0 {
        assert(js_escape(s) =~= Seq::<char>::empty());
    } else {
        lemma_unescape_escape(s.drop_first());
        lemma_unescape_after_char(s[0], js_escape(s.drop_first()));
        assert(seq![s[0]] + s.drop_first() =~= s);
    }
}

/// Law: the literal that [`js_string_literal`] writes reads back, as a
/// JavaScript string literal, as exactly the string it was made from.
pub proof fn js_literal_reads_back(s: Seq<char>)
    ensures
        js_literal_value(js_quoted(s)) == Some(s),
{
    let lit = js_quoted(s);
    assert(lit.subrange(1, lit.len() - 1) =~= js_escape(s));
    lemma_unescape_escape(s);
}

proof fn lemma_escape_char_printable(c: char)
    ensures
        forall|i: int|
            0 <= i < js_escape_char(c).len() ==> #[trigger] (js_escape_char(c)[i] as u32) >= 32,
{
    if (c as u32) < 32 && !(c == '\\' || c == '"' || c == '\n' || c == '\r' || c == '\t') {
        lemma_hex_digit_value((c as u32) / 16);
        lemma_hex_digit_value((c as u32) % 16);
    }
}

proof fn lemma_escape_printable(s: Seq<char>)
    ensures
        forall|i: int| 0 <= i < js_escape(s).len() ==> #[trigger] (js_escape(s)[i] as u32) >= 32,
    decreases s.len(),
{
    if s.len() > 0 {
        lemma_escape_printable(s.drop_first());
        lemma_escape_char_printable(s[0]);
        let a = js_escape_char(s[0]);
        let b = js_escape(s.drop_first());
        assert forall|i: int| 0 <= i < (a + b).len() implies #[trigger] ((a + b)[i] as u32) >= 32 by {
            if i < a.len() {
                assert((a + b)[i] == a[i]);
            } else {
                assert((a + b)[i] == b[i - a.len()]);
            }
        }
    }
}

/// Law: a literal written by [`js_string_literal`] holds no control
/// character below U+0020, so it never breaks the line of the script that
/// it is spliced into.
pub proof fn js_literal_is_single_line(s: Seq<char>)
    ensures
        forall|i: int| 0 <= i < js_quoted(s).len() ==> #[trigger] (js_quoted(s)[i] as u32) >= 32,
{
    lemma_escape_printable(s);
    let e = js_escape(s);
    assert forall|i: int| 0 <= i < js_quoted(s).len() implies #[trigger] (js_quoted(s)[i] as u32) >= 32 by {
        if i == 0 {
        } else if i < e.len() + 1 {
            assert(js_quoted(s)[i] == e[i - 1]);
        } else {
            assert(js_quoted(s)[i] == '"');
        }
    }
}

fn hex_digit_exec(n: u32) -> (c: char)
    requires
        n < 16,
    ensures
        c == hex_digit(n),
{
    if n < 10 {
        let b: u8 = 48 + n as u8;
        b as char
    } else {
        let b: u8 = 87 + n as u8;
        b as char
    }
}

fn push_escaped(out: &mut String, c: char)
    ensures
        final(out)@ == old(out)@ + js_escape_char(c),
{
    if c == '\\' {
        out.push('\\');
        out.push('\\');
    } else if c == '"' {
        out.push('\\');
        out.push('"');
    } else if c == '\n' {
        out.push('\\');
        out.push('n');
    } else if c == '\r' {
        out.push('\\');
        out.push('r');
    } else if c == '\t' {
        out.push('\\');
        out.push('t');
    } else if (c as u32) < 32 {
        let code: u32 = c as u32;
        out.push('\\');
        out.push('u');
        out.push('0');
        out.push('0');
        out.push(hex_digit_exec(code / 16));
        out.push(hex_digit_exec(code % 16));
    } else {
        out.push(c);
    }
    assert(final(out)@ =~= old(out)@ + js_escape_char(c));
}

/// Quotes `value` as a JavaScript string literal, as it is spliced into the
/// scripts that run in the web view.
pub fn js_string_literal(value: &str) -> (output: String)
    ensures
        output@ == js_quoted(value@),
{
    let mut output = String::new();
    output.push('"');
    for ch in it: value.chars()
        invariant
            it.seq() == value@,
            output@ == seq!['"'] + js_escape(it.seq().take(it.index() as int)),
    {
        proof {
            let i = it.index() as int;
            assert(it.seq().take(i + 1) =~= it.seq().take(i).push(it.seq()[i]));
            lemma_js_escape_push(it.seq().take(i), it.seq()[i]);
        }
        push_escaped(&mut output, ch);
    }
    proof {
        assert(value@.take(value@.len() as int) =~= value@);
    }
    output.push('"');
    output
}

} // verus!
