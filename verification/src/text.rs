//! Text helpers: paths, lines and white-space separated words.

use vstd::prelude::*;
use vstd::string::*;

verus! {

/// The characters of each string of `v`, in order.
pub open spec fn texts(v: Seq<String>) -> Seq<Seq<char>> {
    Seq::new(v.len(), |i: int| v[i]@)
}

/// `texts` follows `push`.
pub(crate) proof fn lemma_texts_push(v: Seq<String>, s: String)
    ensures
        texts(v.push(s)) == texts(v).push(s@),
{
}

/// The path of the entry `name` inside the directory `parent`.
pub open spec fn path_join(parent: Seq<char>, name: Seq<char>) -> Seq<char> {
    parent + seq!['/'] + name
}

/// Builds the path of the entry `name` inside the directory `parent`.
pub fn join_path(parent: &str, name: &str) -> (joined: String)
    ensures
        joined@ == path_join(parent@, name@),
{
    let mut joined = String::from_str(parent);
    proof {
        reveal_strlit("/");
    }
    joined.append("/");
    joined.append(name);
    joined
}

/// Whether `c` has the Unicode property `White_Space`.
pub open spec fn is_white_space(c: char) -> bool {
    let u = c as u32;
    ||| 0x09 <= u <= 0x0D
    ||| u == 0x20
    ||| u == 0x85
    ||| u == 0xA0
    ||| u == 0x1680
    ||| 0x2000 <= u <= 0x200A
    ||| u == 0x2028
    ||| u == 0x2029
    ||| u == 0x202F
    ||| u == 0x205F
    ||| u == 0x3000
}

/// Tests whether `c` has the Unicode property `White_Space`.
pub fn is_whitespace(c: char) -> (b: bool)
    ensures
        b == is_white_space(c),
{
    let u: u32 = c as u32;
    (0x09 <= u && u <= 0x0D) || u == 0x20 || u == 0x85 || u == 0xA0 || u == 0x1680 || (0x2000 <= u
        && u <= 0x200A) || u == 0x2028 || u == 0x2029 || u == 0x202F || u == 0x205F || u
        == 0x3000
}

/// The end of the word that starts at `from`: the index of the first
/// white-space character at or after `from`, or the length of `s`.
pub open spec fn word_end(s: Seq<char>, from: int) -> int
    decreases s.len() - from,
{
    if from < 0 || from >= s.len() || is_white_space(s[from]) {
        from
    } else {
        word_end(s, from + 1)
    }
}

/// `word_end` lies between its start and the end of the text.
proof fn lemma_word_end_bounds(s: Seq<char>, from: int)
    requires
        0 <= from <= s.len(),
    ensures
        from <= word_end(s, from) <= s.len(),
        from < s.len() && !is_white_space(s[from]) ==> from < word_end(s, from),
    decreases s.len() - from,
{
    if from < s.len() && !is_white_space(s[from]) {
        lemma_word_end_bounds(s, from + 1);
    }
}

/// A run without white space that stops at `end` is the word from `from`.
proof fn lemma_word_end_is(s: Seq<char>, from: int, end: int)
    requires
        0 <= from <= end <= s.len(),
        forall|k: int| from <= k < end ==> !is_white_space(#[trigger] s[k]),
        end == s.len() || is_white_space(s[end]),
    ensures
        word_end(s, from) == end,
    decreases end - from,
{
    if from < end {
        lemma_word_end_is(s, from + 1, end);
    }
}

/// The words of `s` from index `from` on: the maximal runs of characters
/// that are not white space, in order.
pub open spec fn words_from(s: Seq<char>, from: int) -> Seq<Seq<char>>
    decreases s.len() - from,
    via words_from_decreases
{
    if from < 0 || from >= s.len() {
        Seq::empty()
    } else if is_white_space(s[from]) {
        words_from(s, from + 1)
    } else {
        seq![s.subrange(from, word_end(s, from))] + words_from(s, word_end(s, from))
    }
}

#[via_fn]
proof fn words_from_decreases(s: Seq<char>, from: int) {
    if 0 <= from < s.len() && !is_white_space(s[from]) {
        lemma_word_end_bounds(s, from);
    }
}

/// The white-space separated words of `s`.
pub open spec fn words_of(s: Seq<char>) -> Seq<Seq<char>> {
    words_from(s, 0)
}

/// Splits `text` at white space. Empty words are not produced.
pub fn split_whitespace(text: &str) -> (words: Vec<String>)
    ensures
        texts(words@) == words_of(text@),
{
    let len: usize = text.unicode_len();
    let mut words: Vec<String> = Vec::new();
    let mut start: usize = 0;
    let mut in_word: bool = false;
    let mut i: usize = 0;
    for c in it: text.chars()
        invariant
            it.seq() == text@,
            len == text@.len(),
            i == it.index(),
            i <= len,
            in_word ==> start < i,
            in_word ==> forall|k: int| start <= k < i ==> !is_white_space(#[trigger] text@[k]),
            in_word ==> texts(words@) + words_from(text@, start as int) == words_of(text@),
            !in_word ==> texts(words@) + words_from(text@, i as int) == words_of(text@),
    {
        if is_whitespace(c) {
            if in_word {
                let word = String::from_str(text.substring_char(start, i));
                proof {
                    lemma_word_end_is(text@, start as int, i as int);
                    lemma_texts_push(words@, word);
                }
                words.push(word);
                in_word = false;
            }
        } else {
            if !in_word {
                start = i;
                in_word = true;
            }
        }
        i = i + 1;
    }
    if in_word {
        proof {
            lemma_word_end_is(text@, start as int, len as int);
        }
        let word = String::from_str(text.substring_char(start, len));
        proof {
            lemma_texts_push(words@, word);
        }
        words.push(word);
    }
    proof {
        assert(words_from(text@, len as int) =~= Seq::empty());
    }
    words
}

/// The end of the line that starts at `from`: the index of the first line
/// feed at or after `from`, or the length of `s`.
pub open spec fn line_end(s: Seq<char>, from: int) -> int
    decreases s.len() - from,
{
    if from < 0 || from >= s.len() || s[from] == '\n' {
        from
    } else {
        line_end(s, from + 1)
    }
}

/// `line_end` lies between its start and the end of the text.
proof fn lemma_line_end_bounds(s: Seq<char>, from: int)
    requires
        0 <= from <= s.len(),
    ensures
        from <= line_end(s, from) <= s.len(),
    decreases s.len() - from,
{
    if from < s.len() && s[from] != '\n' {
        lemma_line_end_bounds(s, from + 1);
    }
}

/// A run without line feed that stops at `end` is the line from `from`.
proof fn lemma_line_end_is(s: Seq<char>, from: int, end: int)
    requires
        0 <= from <= end <= s.len(),
        forall|k: int| from <= k < end ==> #[trigger] s[k] != '\n',
        end == s.len() || s[end] == '\n',
    ensures
        line_end(s, from) == end,
    decreases end - from,
{
    if from < end {
        lemma_line_end_is(s, from + 1, end);
    }
}

/// `line` without the carriage return that ends it, if one does.
pub open spec fn strip_carriage_return(line: Seq<char>) -> Seq<char> {
    if line.len() > 0 && line.last() == '\r' {
        line.drop_last()
    } else {
        line
    }
}

/// The lines of `s` from index `from` on. A line ends at a line feed, or at
/// a carriage return followed by a line feed; the last line needs no
/// terminator, and a carriage return that no line feed follows stays.
pub open spec fn lines_from(s: Seq<char>, from: int) -> Seq<Seq<char>>
    decreases s.len() - from,
    via lines_from_decreases
{
    if from < 0 || from >= s.len() {
        Seq::empty()
    } else if line_end(s, from) >= s.len() {
        seq![s.subrange(from, s.len() as int)]
    } else {
        seq![strip_carriage_return(s.subrange(from, line_end(s, from)))] + lines_from(
            s,
            line_end(s, from) + 1,
        )
    }
}

#[via_fn]
proof fn lines_from_decreases(s: Seq<char>, from: int) {
    if 0 <= from < s.len() {
        lemma_line_end_bounds(s, from);
    }
}

/// The lines of `s`, without their terminators.
pub open spec fn lines_of(s: Seq<char>) -> Seq<Seq<char>> {
    lines_from(s, 0)
}

/// Splits `text` into its lines.
pub fn split_lines(text: &str) -> (lines: Vec<String>)
    ensures
        texts(lines@) == lines_of(text@),
{
    let len: usize = text.unicode_len();
    let mut lines: Vec<String> = Vec::new();
    let mut start: usize = 0;
    let mut after_return: bool = false;
    let mut i: usize = 0;
    for c in it: text.chars()
        invariant
            it.seq() == text@,
            len == text@.len(),
            i == it.index(),
            start <= i <= len,
            forall|k: int| start <= k < i ==> #[trigger] text@[k] != '\n',
            after_return <==> (start < i && text@[i - 1] == '\r'),
            texts(lines@) + lines_from(text@, start as int) == lines_of(text@),
    {
        if c == '\n' {
            let end: usize = if after_return {
                i - 1
            } else {
                i
            };
            let line = String::from_str(text.substring_char(start, end));
            proof {
                lemma_line_end_is(text@, start as int, i as int);
                lemma_texts_push(lines@, line);
                assert(line@ =~= strip_carriage_return(text@.subrange(start as int, i as int)));
            }
            lines.push(line);
            start = i + 1;
            after_return = false;
        } else {
            after_return = c == '\r';
        }
        i = i + 1;
    }
    if start < len {
        let line = String::from_str(text.substring_char(start, len));
        proof {
            lemma_line_end_is(text@, start as int, len as int);
            lemma_texts_push(lines@, line);
        }
        lines.push(line);
    }
    lines
}

} // verus!
