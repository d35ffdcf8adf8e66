//! Text helpers shared by the engines: character access, substring
//! search, case folding, joining, counting words and writing numbers.
//!
//! Texts are modelled as sequences of characters (`Seq<char>`), the view that
//! `str` and `String` have in specifications.

use vstd::prelude::*;
use vstd::string::StringExecFns;

verus! {

/// `needle` stands in `hay` at character position `start`.
pub open spec fn occurs_at(needle: Seq<char>, hay: Seq<char>, start: int) -> bool {
    &&& 0 <= start
    &&& start + needle.len() <= hay.len()
    &&& hay.subrange(start, start + needle.len()) == needle
}

/// `needle` occurs somewhere in `hay` as a contiguous run of characters.
/// The empty text occurs in every text.
pub open spec fn occurs_in(needle: Seq<char>, hay: Seq<char>) -> bool {
    exists|start: int| occurs_at(needle, hay, start)
}

/// `text` begins with `prefix`.
pub open spec fn starts_with(text: Seq<char>, prefix: Seq<char>) -> bool {
    occurs_at(prefix, text, 0)
}

/// `text` ends with `suffix`.
pub open spec fn ends_with(text: Seq<char>, suffix: Seq<char>) -> bool {
    occurs_at(suffix, text, text.len() - suffix.len())
}

/// The texts of `parts` in order, with `separator` between neighbours.
pub open spec fn joined(parts: Seq<Seq<char>>, separator: Seq<char>) -> Seq<char>
    decreases parts.len(),
{
    if parts.len() == 0 {
        Seq::empty()
    } else if parts.len() == 1 {
        parts[0]
    } else {
        joined(parts.drop_last(), separator) + separator + parts.last()
    }
}

/// The lowercase form of a text, as `str::to_lowercase` computes it from the
/// Unicode character tables.
pub uninterp spec fn lowercase_of(text: Seq<char>) -> Seq<char>;

/// Calls `str::to_lowercase`. Nothing is proved of the case mapping itself:
/// the contract only gives the result its name, `lowercase_of`.
#[verifier::external_body]
pub(crate) fn to_lowercase(text: &str) -> (lowered: String)
    ensures
        lowered@ == lowercase_of(text@),
{
    text.to_lowercase()
}

/// The characters of `s`, in order.
pub fn chars_of(s: &str) -> (v: Vec<char>)
    ensures
        v@ == s@,
{
    let mut v: Vec<char> = Vec::new();
    for c in it: s.chars()
        invariant
            v@ == it.seq().take(it.index() as int),
            it.seq() == s@,
    {
        v.push(c);
    }
    v
}

/// Whether `needle` stands in `hay` at position `start`. It does not where
/// it would reach past the end of `hay`.
pub fn matches_at(hay: &[char], needle: &[char], start: usize) -> (found: bool)
    ensures
        found == occurs_at(needle@, hay@, start as int),
{
    if needle.len() > hay.len() || start > hay.len() - needle.len() {
        return false;
    }
    let mut k: usize = 0;
    while k < needle.len()
        invariant
            k <= needle.len(),
            start + needle.len() <= hay.len(),
            forall|j: int| 0 <= j < k ==> hay@[start + j] == needle@[j],
        decreases needle.len() - k,
    {
        if hay[start + k] != needle[k] {
            proof {
                let window = hay@.subrange(start as int, start + needle.len());
                assert(window[k as int] == hay@[start + k]);
            }
            return false;
        }
        k += 1;
    }
    assert(hay@.subrange(start as int, start + needle.len()) =~= needle@);
    true
}

/// Whether `needle` occurs in `hay`.
pub fn contains(hay: &[char], needle: &[char]) -> (found: bool)
    ensures
        found == occurs_in(needle@, hay@),
{
    if needle.len() > hay.len() {
        return false;
    }
    let last: usize = hay.len() - needle.len();
    let mut start: usize = 0;
    while start < last
        invariant
            last == hay.len() - needle.len(),
            start <= last,
            forall|i: int| 0 <= i < start ==> !occurs_at(needle@, hay@, i),
        decreases last - start,
    {
        if matches_at(hay, needle, start) {
            return true;
        }
        start += 1;
    }
    matches_at(hay, needle, last)
}

/// Whether `keyword` occurs in the text whose characters are `hay`.
pub fn mentions(hay: &[char], keyword: &str) -> (found: bool)
    ensures
        found == occurs_in(keyword@, hay@),
{
    let needle = chars_of(keyword);
    contains(hay, needle.as_slice())
}

/// Whether `text` ends with `suffix`.
pub fn has_suffix(text: &[char], suffix: &[char]) -> (found: bool)
    ensures
        found == ends_with(text@, suffix@),
{
    if suffix.len() > text.len() {
        return false;
    }
    matches_at(text, suffix, text.len() - suffix.len())
}

/// Joins `parts` with a single space between neighbours.
pub fn join_with_space(parts: &Vec<String>) -> (line: String)
    ensures
        line@ == joined(parts.deep_view(), " "@),
{
    let mut line = String::new();
    let mut i: usize = 0;
    while i < parts.len()
        invariant
            i <= parts@.len(),
            line@ == joined(parts.deep_view().take(i as int), " "@),
        decreases parts@.len() - i,
    {
        proof {
            let before = parts.deep_view().take(i as int);
            let after = parts.deep_view().take(i + 1);
            assert(after.drop_last() =~= before);
            assert(after.last() == parts@[i as int]@);
        }
        if i > 0 {
            line.append(" ");
        }
        line.append(parts[i].as_str());
        i += 1;
    }
    assert(parts.deep_view().take(parts@.len() as int) =~= parts.deep_view());
    line
}

/// Whether a character is white space, as `char::is_whitespace` tells it
/// from the Unicode character tables.
pub uninterp spec fn white_space(c: char) -> bool;

/// Calls `char::is_whitespace`. Nothing is proved of the character tables:
/// the contract only gives the result its name, `white_space`.
#[verifier::external_body]
pub(crate) fn is_white_space(c: char) -> (white: bool)
    ensures
        white == white_space(c),
{
    c.is_whitespace()
}

/// A word starts at position `at` of `text`: the character there is not
/// white space, and it is the first character or follows white space.
pub open spec fn word_starts_at(text: Seq<char>, at: int) -> bool {
    &&& 0 <= at < text.len()
    &&& !white_space(text[at])
    &&& (at == 0 || white_space(text[at - 1]))
}

/// The number of words in `text`, a word being a longest run of characters
/// that are not white space.
pub open spec fn word_count(text: Seq<char>) -> nat
    decreases text.len(),
{
    if text.len() == 0 {
        0
    } else if word_starts_at(text, text.len() - 1) {
        word_count(text.drop_last()) + 1
    } else {
        word_count(text.drop_last())
    }
}

/// The number of words in `text`.
pub fn count_words(text: &[char]) -> (words: usize)
    ensures
        words == word_count(text@),
{
    let mut words: usize = 0;
    let mut after_space = true;
    let mut i: usize = 0;
    while i < text.len()
        invariant
            i <= text.len(),
            words <= i,
            words == word_count(text@.take(i as int)),
            after_space == (i == 0 || white_space(text@[i - 1])),
        decreases text.len() - i,
    {
        proof {
            let next = text@.take(i + 1);
            assert(next.drop_last() =~= text@.take(i as int));
            assert(next[i as int] == text@[i as int]);
            if i > 0 {
                assert(next[i - 1] == text@[i - 1]);
            }
        }
        let white = is_white_space(text[i]);
        if !white && after_space {
            words += 1;
        }
        after_space = white;
        i += 1;
    }
    assert(text@.take(text.len() as int) =~= text@);
    words
}

/// The character that stands for a digit.
pub open spec fn digit_char(digit: nat) -> char {
    if digit == 0 {
        '0'
    } else if digit == 1 {
        '1'
    } else if digit == 2 {
        '2'
    } else if digit == 3 {
        '3'
    } else if digit == 4 {
        '4'
    } else if digit == 5 {
        '5'
    } else if digit == 6 {
        '6'
    } else if digit == 7 {
        '7'
    } else if digit == 8 {
        '8'
    } else {
        '9'
    }
}

/// A number written in decimal, without leading zeros.
pub open spec fn decimal(number: nat) -> Seq<char>
    decreases number,
{
    if number < 10 {
        seq![digit_char(number)]
    } else {
        decimal(number / 10).push(digit_char(number % 10))
    }
}

/// A digit as a text of one character.
fn digit_text(digit: usize) -> (text: &'static str)
    requires
        digit < 10,
    ensures
        text@ == seq![digit_char(digit as nat)],
{
    proof {
        reveal_strlit("0");
        reveal_strlit("1");
        reveal_strlit("2");
        reveal_strlit("3");
        reveal_strlit("4");
        reveal_strlit("5");
        reveal_strlit("6");
        reveal_strlit("7");
        reveal_strlit("8");
        reveal_strlit("9");
    }
    let text = if digit == 0 {
        "0"
    } else if digit == 1 {
        "1"
    } else if digit == 2 {
        "2"
    } else if digit == 3 {
        "3"
    } else if digit == 4 {
        "4"
    } else if digit == 5 {
        "5"
    } else if digit == 6 {
        "6"
    } else if digit == 7 {
        "7"
    } else if digit == 8 {
        "8"
    } else {
        "9"
    };
    assert(text@ =~= seq![digit_char(digit as nat)]);
    text
}

/// `number` written in decimal.
pub fn decimal_text(number: usize) -> (text: String)
    ensures
        text@ == decimal(number as nat),
    decreases number,
{
    if number < 10 {
        String::from_str(digit_text(number))
    } else {
        let mut text = decimal_text(number / 10);
        text.append(digit_text(number % 10));
        assert(text@ =~= decimal(number as nat));
        text
    }
}

} // verus!
