use vstd::prelude::*;

use crate::config_manager::TTSPreprocessorConfig;
use crate::text::{owned, push_char};
use crate::tts_preprocessor::{is_space, is_space_spec, tts_filter_spec};
use crate::types::{Actions, DisplayText, SentenceOutput};

verus! {

/// Whether `c` ends a sentence.
pub open spec fn is_terminal(c: char) -> bool {
    c == '.' || c == '!' || c == '?' || c == '。' || c == '！' || c == '？'
}

fn terminal(c: char) -> (r: bool)
    ensures
        r == is_terminal(c),
{
    c == '.' || c == '!' || c == '?' || c == '。' || c == '！' || c == '？'
}

/// `s` without leading white space.
pub open spec fn trim_start(s: Seq<char>) -> Seq<char>
    decreases s.len(),
{
    if s.len() > 0 && is_space_spec(s[0]) {
        trim_start(s.drop_first())
    } else {
        s
    }
}

/// `s` without trailing white space.
pub open spec fn trim_end(s: Seq<char>) -> Seq<char>
    decreases s.len(),
{
    if s.len() > 0 && is_space_spec(s.last()) {
        trim_end(s.drop_last())
    } else {
        s
    }
}

/// `s` without leading or trailing white space.
pub open spec fn trim(s: Seq<char>) -> Seq<char> {
    trim_end(trim_start(s))
}

/// The text without leading or trailing white space.
pub fn trimmed(s: &str) -> (r: String)
    ensures
        r@ == trim(s@),
{
    let n = s.unicode_len();
    let mut a: usize = 0;
    assert(s@.subrange(0, n as int) =~= s@);
    while a < n && is_space(s.get_char(a))
        invariant
            n == s@.len(),
            a <= n,
            trim_start(s@) == trim_start(s@.subrange(a as int, n as int)),
        decreases n - a,
    {
        assert(s@.subrange(a as int, n as int).drop_first() =~= s@.subrange(a + 1, n as int));
        a += 1;
    }
    let mut b: usize = n;
    let ghost front = s@.subrange(a as int, n as int);
    assert(trim_start(front) == front);
    while b > a && is_space(s.get_char(b - 1))
        invariant
            n == s@.len(),
            a <= b <= n,
            trim_end(front) == trim_end(s@.subrange(a as int, b as int)),
        decreases b - a,
    {
        assert(s@.subrange(a as int, b as int).drop_last() =~= s@.subrange(a as int, b - 1));
        b -= 1;
    }
    let piece = s.substring_char(a, b);
    assert(trim_end(s@.subrange(a as int, b as int)) == s@.subrange(a as int, b as int));
    owned(piece)
}

/// Whether the text, without surrounding white space, is non-empty and ends a sentence.
pub open spec fn complete_sentence(s: Seq<char>) -> bool {
    trim(s).len() > 0 && is_terminal(trim(s).last())
}

/// Whether the text is a complete sentence.
pub fn is_complete_sentence(text: &str) -> (r: bool)
    ensures
        r == complete_sentence(text@),
{
    let t = trimmed(text);
    let n = t.as_str().unicode_len();
    if n == 0 {
        return false;
    }
    terminal(t.as_str().get_char(n - 1))
}

/// `[x]` when `x` is not empty, else nothing.
pub open spec fn keep_nonempty(x: Seq<char>) -> Seq<Seq<char>> {
    if x.len() > 0 {
        seq![x]
    } else {
        seq![]
    }
}

/// The sentences completed in `s` and the unfinished rest.
pub open spec fn split_state(s: Seq<char>) -> (Seq<Seq<char>>, Seq<char>)
    decreases s.len(),
{
    if s.len() == 0 {
        (seq![], seq![])
    } else {
        let (done, cur) = split_state(s.drop_last());
        if is_terminal(s.last()) {
            (done + keep_nonempty(trim(cur)), seq![])
        } else {
            (done, cur.push(s.last()))
        }
    }
}

/// The text cut after each sentence-ending mark, each piece trimmed, empty pieces dropped.
pub open spec fn sentences(s: Seq<char>) -> Seq<Seq<char>> {
    split_state(s).0 + keep_nonempty(trim(split_state(s).1))
}

/// Splits text into sentences.
pub fn split_sentences(text: &str) -> (r: Vec<String>)
    ensures
        r@.map_values(|x: String| x@) == sentences(text@),
{
    let n = text.unicode_len();
    let mut out: Vec<String> = Vec::new();
    let mut cur = String::new();
    let mut i: usize = 0;
    assert(text@.subrange(0, 0) =~= Seq::<char>::empty());
    while i < n
        invariant
            n == text@.len(),
            i <= n,
            (out@.map_values(|x: String| x@), cur@) == split_state(text@.subrange(0, i as int)),
        decreases n - i,
    {
        let c = text.get_char(i);
        assert(text@.subrange(0, i + 1).drop_last() =~= text@.subrange(0, i as int));
        assert(text@.subrange(0, i + 1).last() == c);
        if terminal(c) {
            let piece = trimmed(cur.as_str());
            if piece.as_str().unicode_len() > 0 {
                let ghost before = out@;
                out.push(piece);
                assert(out@.map_values(|x: String| x@) =~= before.map_values(|x: String| x@)
                    + keep_nonempty(piece@));
            } else {
                assert(out@.map_values(|x: String| x@) =~= out@.map_values(|x: String| x@)
                    + keep_nonempty(piece@));
            }
            cur = String::new();
        } else {
            push_char(&mut cur, c);
        }
        i += 1;
    }
    assert(text@.subrange(0, n as int) =~= text@);
    let piece = trimmed(cur.as_str());
    if piece.as_str().unicode_len() > 0 {
        let ghost before = out@;
        out.push(piece);
        assert(out@.map_values(|x: String| x@) =~= before.map_values(|x: String| x@)
            + keep_nonempty(piece@));
    } else {
        assert(out@.map_values(|x: String| x@) =~= out@.map_values(|x: String| x@)
            + keep_nonempty(piece@));
    }
    out
}

/// The segmentation stage: the text of a reply as its sentences.
pub fn sentence_divider(text: &str) -> (r: Vec<String>)
    ensures
        r@.map_values(|x: String| x@) == sentences(text@),
{
    split_sentences(text)
}

/// The action stage: without a character model to read expressions from, a sentence carries
/// no actions.
pub fn actions_extractor(_sentence: &str) -> (r: Actions)
    ensures
        r.is_empty_spec(),
{
    Actions::new()
}

/// The display stage: a sentence shown under the default speaker.
pub fn display_processor(sentence: &str) -> (r: DisplayText)
    ensures
        r.text@ == sentence@,
        r.name matches Some(n) && n@ == "AI"@,
        r.avatar is None,
{
    DisplayText::new(owned(sentence))
}

/// The filtering applied without a preprocessor configuration: none.
pub open spec fn filter_with(text: Seq<char>, cfg: Option<TTSPreprocessorConfig>) -> Seq<char> {
    match cfg {
        Some(c) => tts_filter_spec(
            text,
            c.remove_special_char,
            c.ignore_brackets,
            c.ignore_parentheses,
            c.ignore_asterisks,
            c.ignore_angle_brackets,
        ),
        None => text,
    }
}

/// The speech stage: the text to speak, filtered as the configuration asks; with no
/// configuration nothing is removed.
pub fn tts_filter(text: &str, tts_preprocessor_config: Option<&TTSPreprocessorConfig>) -> (r:
    String)
    ensures
        r@ == filter_with(
            text@,
            match tts_preprocessor_config {
                Some(c) => Some(*c),
                None => None,
            },
        ),
{
    match tts_preprocessor_config {
        Some(c) => crate::tts_preprocessor::tts_filter(
            text,
            c.remove_special_char,
            c.ignore_brackets,
            c.ignore_parentheses,
            c.ignore_asterisks,
            c.ignore_angle_brackets,
        ),
        None => {
            assert(tts_filter_spec(text@, false, false, false, false, false) == text@);
            owned(text)
        },
    }
}

/// The whole pipeline on a reply: one sentence unit per sentence, shown as it is, spoken as
/// filtered, with no actions.
pub fn transform_reply(text: &str, tts_preprocessor_config: Option<&TTSPreprocessorConfig>) -> (r:
    Vec<SentenceOutput>)
    ensures
        r@.len() == sentences(text@).len(),
        forall|i: int|
            0 <= i < r@.len() ==> {
                &&& (#[trigger] r@[i]).display_text.text@ == sentences(text@)[i]
                &&& r@[i].tts_text@ == filter_with(
                    sentences(text@)[i],
                    match tts_preprocessor_config {
                        Some(c) => Some(*c),
                        None => None,
                    },
                )
                &&& r@[i].actions.is_empty_spec()
            },
{
    let parts = sentence_divider(text);
    let ghost views = parts@.map_values(|x: String| x@);
    let mut out: Vec<SentenceOutput> = Vec::new();
    let mut i: usize = 0;
    while i < parts.len()
        invariant
            i <= parts@.len(),
            views == sentences(text@),
            views == parts@.map_values(|x: String| x@),
            out@.len() == i,
            forall|k: int|
                0 <= k < i ==> {
                    &&& (#[trigger] out@[k]).display_text.text@ == views[k]
                    &&& out@[k].tts_text@ == filter_with(
                        views[k],
                        match tts_preprocessor_config {
                            Some(c) => Some(*c),
                            None => None,
                        },
                    )
                    &&& out@[k].actions.is_empty_spec()
                },
        decreases parts@.len() - i,
    {
        let s = parts[i].as_str();
        out.push(
            SentenceOutput {
                display_text: display_processor(s),
                tts_text: tts_filter(s, tts_preprocessor_config),
                actions: actions_extractor(s),
            },
        );
        i += 1;
    }
    out
}

} // verus!
