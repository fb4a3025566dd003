//! Texts as JSON strings.

use vstd::prelude::*;
use vstd::string::StringExecFns;

verus! {

/// `String::push` of std: the character is added at the end of the text, and
/// the text before it stays as it was.
pub assume_specification[ String::push ](text: &mut String, ch: char)
    ensures
        final(text)@ == old(text)@.push(ch),
;

/// The digit for a number from 0 to 15 in base 16, in lower case: `0` has
/// the code 48, and `a`, the digit for ten, the code 97.
pub open spec fn hex_digit(nibble: int) -> char {
    if nibble < 10 {
        (nibble + 48) as char
    } else {
        (nibble + 87) as char
    }
}

/// A character as it stands inside a JSON string: a double quote and a
/// backslash each behind a backslash, a character below the space as `\u00`
/// and its two digits in base 16, any other as it is.
pub open spec fn json_escaped_char(c: char) -> Seq<char> {
    if c == '"' {
        "\\\""@
    } else if c == '\\' {
        "\\\\"@
    } else if (c as int) < 32 {
        "\\u00"@.push(hex_digit(c as int / 16)).push(hex_digit(c as int % 16))
    } else {
        seq![c]
    }
}

/// A text as it stands inside a JSON string, between the quotes: each of its
/// characters as [`json_escaped_char`] gives it, in order.
pub open spec fn json_escaped(text: Seq<char>) -> Seq<char>
    decreases text.len(),
{
    if text.len() == 0 {
        Seq::empty()
    } else {
        json_escaped(text.drop_last()) + json_escaped_char(text.last())
    }
}

/// A text without a double quote, a backslash or a character below the
/// space.
pub open spec fn is_plain_text(text: Seq<char>) -> bool {
    forall|i: int|
        0 <= i < text.len() ==> (#[trigger] text[i]) != '"' && text[i] != '\\' && text[i] as int
            >= 32
}

/// A plain text stands inside a JSON string as it is.
pub proof fn lemma_plain_text_is_unchanged(text: Seq<char>)
    requires
        is_plain_text(text),
    ensures
        json_escaped(text) == text,
    decreases text.len(),
{
    if text.len() > 0 {
        lemma_plain_text_is_unchanged(text.drop_last());
        let last = text[text.len() - 1];
        assert(last != '"' && last != '\\' && last as int >= 32);
        assert(json_escaped_char(text.last()) == seq![text.last()]);
        assert(text.drop_last() + seq![text.last()] =~= text);
    }
}

/// The digit for `nibble` in base 16.
fn hex_digit_of(nibble: u8) -> (digit: char)
    requires
        nibble < 16,
    ensures
        digit == hex_digit(nibble as int),
{
    if nibble < 10 {
        (nibble + 48) as char
    } else {
        (nibble + 87) as char
    }
}

/// Adds `c` to `out` as it stands inside a JSON string.
pub fn push_json_escaped_char(out: &mut String, c: char)
    ensures
        final(out)@ == old(out)@ + json_escaped_char(c),
{
    if c == '"' {
        out.append("\\\"");
    } else if c == '\\' {
        out.append("\\\\");
    } else if (c as u32) < 32 {
        let code: u8 = c as u8;
        out.append("\\u00");
        out.push(hex_digit_of(code / 16));
        out.push(hex_digit_of(code % 16));
    } else {
        out.push(c);
    }
    assert(out@ =~= old(out)@ + json_escaped_char(c));
}

/// Adds `text` to `out` as it stands inside a JSON string.
pub fn push_json_escaped(out: &mut String, text: &str)
    ensures
        final(out)@ == old(out)@ + json_escaped(text@),
{
    let ghost before = out@;
    for c in it: text.chars()
        invariant
            it.seq() == text@,
            out@ == before + json_escaped(text@.take(it.index() as int)),
    {
        let ghost done = it.index() as int;
        push_json_escaped_char(out, c);
        proof {
            assert(text@.take(done + 1).drop_last() =~= text@.take(done));
            assert(text@.take(done + 1).last() == c);
            assert(out@ =~= before + json_escaped(text@.take(done + 1)));
        }
    }
    proof {
        assert(text@.take(text@.len() as int) =~= text@);
    }
}

} // verus!
