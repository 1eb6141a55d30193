use vstd::prelude::*;

use crate::text::push_char;

verus! {

/// What `char::is_alphanumeric` says of a character.
pub uninterp spec fn alphanumeric(c: char) -> bool;

/// Relies on `char::is_alphanumeric`: whether the character is alphabetic or numeric.
#[verifier::external_body]
fn is_alphanumeric(c: char) -> (r: bool)
    ensures
        r == alphanumeric(c),
        ('a' <= c <= 'z' || 'A' <= c <= 'Z' || '0' <= c <= '9') ==> r,
{
    c.is_alphanumeric()
}

/// The Unicode `White_Space` characters.
pub open spec fn is_space_spec(c: char) -> bool {
    let u = c as u32;
    (0x09 <= u <= 0x0d) || u == 0x20 || u == 0x85 || u == 0xa0 || u == 0x1680 || (0x2000 <= u
        <= 0x200a) || u == 0x2028 || u == 0x2029 || u == 0x202f || u == 0x205f || u == 0x3000
}

/// Whether `c` is a Unicode `White_Space` character.
pub fn is_space(c: char) -> (r: bool)
    ensures
        r == is_space_spec(c),
{
    let u = c as u32;
    (0x09 <= u && u <= 0x0d) || u == 0x20 || u == 0x85 || u == 0xa0 || u == 0x1680 || (0x2000 <= u
        && u <= 0x200a) || u == 0x2028 || u == 0x2029 || u == 0x202f || u == 0x205f || u == 0x3000
}

/// The text with every span from `start` to its matching `end` removed, nested spans
/// included, starting at nesting `depth`. When `start` and `end` are the same character,
/// everything from its first occurrence on is removed.
pub open spec fn filter_from(s: Seq<char>, start: char, end: char, depth: nat) -> Seq<char>
    decreases s.len(),
{
    if s.len() == 0 {
        seq![]
    } else {
        let c = s[0];
        let rest = s.drop_first();
        if c == start {
            filter_from(rest, start, end, depth + 1)
        } else if c == end && depth > 0 {
            filter_from(rest, start, end, (depth - 1) as nat)
        } else if depth == 0 {
            seq![c] + filter_from(rest, start, end, 0)
        } else {
            filter_from(rest, start, end, depth)
        }
    }
}

/// Removes every span from `start` to its matching `end`, nested spans included.
pub fn filter_pattern(text: &str, start: char, end: char) -> (r: String)
    ensures
        r@ == filter_from(text@, start, end, 0),
{
    let n = text.unicode_len();
    let mut out = String::new();
    let mut depth: usize = 0;
    let mut i: usize = 0;
    assert(text@.skip(0) =~= text@);
    while i < n
        invariant
            n == text@.len(),
            i <= n,
            depth <= i,
            out@ + filter_from(text@.skip(i as int), start, end, depth as nat) == filter_from(
                text@,
                start,
                end,
                0,
            ),
        decreases n - i,
    {
        let c = text.get_char(i);
        assert(text@.skip(i as int)[0] == c);
        assert(text@.skip(i as int).drop_first() =~= text@.skip(i + 1));
        if c == start {
            depth = depth + 1;
        } else if c == end && depth > 0 {
            depth = depth - 1;
        } else if depth == 0 {
            let ghost before = out@;
            push_char(&mut out, c);
            assert(before + (seq![c] + filter_from(text@.skip(i + 1), start, end, 0)) =~= out@
                + filter_from(text@.skip(i + 1), start, end, 0));
        }
        i += 1;
    }
    assert(text@.skip(n as int) =~= Seq::<char>::empty());
    assert(out@ + Seq::<char>::empty() =~= out@);
    out
}

/// Characters kept when special characters are removed.
pub open spec fn kept_char(c: char) -> bool {
    alphanumeric(c) || is_space_spec(c) || c == '.' || c == ',' || c == '!' || c == '?' || c == ';'
        || c == ':'
}

/// The text with only its kept characters.
pub open spec fn keep_plain(s: Seq<char>) -> Seq<char> {
    s.filter(|c: char| kept_char(c))
}

/// Removes every character that is not alphanumeric, white space or `.,!?;:`.
pub fn remove_special(text: &str) -> (r: String)
    ensures
        r@ == keep_plain(text@),
{
    let n = text.unicode_len();
    let mut out = String::new();
    let mut i: usize = 0;
    proof {
        reveal(Seq::filter);
    }
    assert(text@.subrange(0, 0).filter(|c: char| kept_char(c)) =~= Seq::<char>::empty());
    while i < n
        invariant
            n == text@.len(),
            i <= n,
            out@ == text@.subrange(0, i as int).filter(|c: char| kept_char(c)),
        decreases n - i,
    {
        let c = text.get_char(i);
        let keep = is_alphanumeric(c) || is_space(c) || c == '.' || c == ',' || c == '!' || c
            == '?' || c == ';' || c == ':';
        assert(text@.subrange(0, i + 1).drop_last() =~= text@.subrange(0, i as int));
        assert(text@.subrange(0, i + 1).last() == c);
        proof {
            reveal(Seq::filter);
        }
        if keep {
            push_char(&mut out, c);
        }
        i += 1;
    }
    assert(text@.subrange(0, n as int) =~= text@);
    out
}

/// The text to speak: spans in asterisks, brackets, parentheses and angle brackets removed
/// as asked, in that order, then special characters if asked.
pub open spec fn tts_filter_spec(
    text: Seq<char>,
    remove_special_char: bool,
    ignore_brackets: bool,
    ignore_parentheses: bool,
    ignore_asterisks: bool,
    ignore_angle_brackets: bool,
) -> Seq<char> {
    let a = if ignore_asterisks {
        filter_from(text, '*', '*', 0)
    } else {
        text
    };
    let b = if ignore_brackets {
        filter_from(a, '[', ']', 0)
    } else {
        a
    };
    let p = if ignore_parentheses {
        filter_from(b, '(', ')', 0)
    } else {
        b
    };
    let g = if ignore_angle_brackets {
        filter_from(p, '<', '>', 0)
    } else {
        p
    };
    if remove_special_char {
        keep_plain(g)
    } else {
        g
    }
}

/// Prepares text for speech synthesis.
pub fn tts_filter(
    text: &str,
    remove_special_char: bool,
    ignore_brackets: bool,
    ignore_parentheses: bool,
    ignore_asterisks: bool,
    ignore_angle_brackets: bool,
) -> (r: String)
    ensures
        r@ == tts_filter_spec(
            text@,
            remove_special_char,
            ignore_brackets,
            ignore_parentheses,
            ignore_asterisks,
            ignore_angle_brackets,
        ),
{
    let mut result = text.to_string();
    if ignore_asterisks {
        result = filter_pattern(result.as_str(), '*', '*');
    }
    if ignore_brackets {
        result = filter_pattern(result.as_str(), '[', ']');
    }
    if ignore_parentheses {
        result = filter_pattern(result.as_str(), '(', ')');
    }
    if ignore_angle_brackets {
        result = filter_pattern(result.as_str(), '<', '>');
    }
    if remove_special_char {
        result = remove_special(result.as_str());
    }
    result
}

} // verus!
