//! Reading the player's replies.
//!
//! A reply to the hit-or-stay question is read without regard to case and to
//! the white space around it. A reply to the play-again question is a refusal
//! if its very first character is an `n`, small or capital.

use vstd::prelude::*;

verus! {

/// What the player answered to the hit-or-stay question.
#[derive(Debug, PartialEq, Eq, Clone, Copy, Structural)]
pub enum Decision {
    Hit,
    Stay,
    Invalid,
}

/// The characters that count as white space: those with the Unicode property
/// `White_Space`.
pub open spec fn is_blank(c: char) -> bool {
    ||| '\u{9}' <= c <= '\u{d}'
    ||| c == ' '
    ||| c == '\u{85}'
    ||| c == '\u{a0}'
    ||| c == '\u{1680}'
    ||| '\u{2000}' <= c <= '\u{200a}'
    ||| c == '\u{2028}'
    ||| c == '\u{2029}'
    ||| c == '\u{202f}'
    ||| c == '\u{205f}'
    ||| c == '\u{3000}'
}

/// The small letter for a capital letter `A` to `Z`; every other character
/// stays as it is.
pub open spec fn lower(c: char) -> char {
    if 'A' <= c <= 'Z' {
        ((c as u8) + 32) as char
    } else {
        c
    }
}

/// `text` without the white space at its start.
pub open spec fn trim_start(text: Seq<char>) -> Seq<char>
    decreases text.len(),
{
    if text.len() > 0 && is_blank(text.first()) {
        trim_start(text.drop_first())
    } else {
        text
    }
}

/// `text` without the white space at its end.
pub open spec fn trim_end(text: Seq<char>) -> Seq<char>
    decreases text.len(),
{
    if text.len() > 0 && is_blank(text.last()) {
        trim_end(text.drop_last())
    } else {
        text
    }
}

/// `text` without the white space around it, every capital letter made small.
pub open spec fn normalized(text: Seq<char>) -> Seq<char> {
    trim_end(trim_start(text)).map_values(|c: char| lower(c))
}

/// The decision that a line of input stands for.
pub open spec fn decision_of(line: Seq<char>) -> Decision {
    if normalized(line) == seq!['h', 'i', 't'] {
        Decision::Hit
    } else if normalized(line) == seq!['s', 't', 'a', 'y'] {
        Decision::Stay
    } else {
        Decision::Invalid
    }
}

/// Whether a line of input refuses another round.
pub open spec fn is_refusal(line: Seq<char>) -> bool {
    line.len() > 0 && lower(line.first()) == 'n'
}

/// The characters of `text`, in order.
fn chars_of(text: &str) -> (chars: Vec<char>)
    ensures
        chars@ == text@,
{
    let mut chars: Vec<char> = Vec::new();
    for c in it: text.chars()
        invariant
            chars@ == it.seq().take(it.index() as int),
            it.seq() == text@,
    {
        chars.push(c);
    }
    chars
}

fn blank(c: char) -> (b: bool)
    ensures
        b == is_blank(c),
{
    ('\u{9}' <= c && c <= '\u{d}') || c == ' ' || c == '\u{85}' || c == '\u{a0}' || c
        == '\u{1680}' || ('\u{2000}' <= c && c <= '\u{200a}') || c == '\u{2028}' || c
        == '\u{2029}' || c == '\u{202f}' || c == '\u{205f}' || c == '\u{3000}'
}

fn to_lower(c: char) -> (small: char)
    ensures
        small == lower(c),
{
    if 'A' <= c && c <= 'Z' {
        ((c as u8) + 32) as char
    } else {
        c
    }
}

/// Dropping leading white space from a text that starts with `n` blanks and
/// then goes on with something else leaves the text from place `n` on.
proof fn lemma_trim_start_skips(text: Seq<char>, n: int)
    requires
        0 <= n <= text.len(),
        forall|i: int| 0 <= i < n ==> is_blank(#[trigger] text[i]),
        n < text.len() ==> !is_blank(text[n]),
    ensures
        trim_start(text) == text.skip(n),
    decreases n,
{
    if n == 0 {
        assert(text.skip(0) =~= text);
    } else {
        lemma_trim_start_skips(text.drop_first(), n - 1);
        assert(text.drop_first().skip(n - 1) =~= text.skip(n));
    }
}

/// Dropping trailing white space from a text that ends in blanks from place
/// `n` on, with something else before them, leaves the first `n` characters.
proof fn lemma_trim_end_takes(text: Seq<char>, n: int)
    requires
        0 <= n <= text.len(),
        forall|i: int| n <= i < text.len() ==> is_blank(#[trigger] text[i]),
        0 < n ==> !is_blank(text[n - 1]),
    ensures
        trim_end(text) == text.take(n),
    decreases text.len() - n,
{
    if n == text.len() {
        assert(text.take(n) =~= text);
    } else {
        lemma_trim_end_takes(text.drop_last(), n);
        assert(text.drop_last().take(n) =~= text.take(n));
    }
}

/// Whether the characters of `chars` from `start` up to `end`, capital
/// letters made small, spell `word`.
fn spells(chars: &Vec<char>, start: usize, end: usize, word: &Vec<char>) -> (same: bool)
    requires
        start <= end <= chars.len(),
    ensures
        same == (chars@.subrange(start as int, end as int).map_values(|c: char| lower(c))
            == word@),
{
    let ghost part = chars@.subrange(start as int, end as int).map_values(|c: char| lower(c));
    if end - start != word.len() {
        return false;
    }
    let mut i: usize = 0;
    while i < word.len()
        invariant
            i <= word.len(),
            start <= end <= chars.len(),
            end - start == word.len(),
            part == chars@.subrange(start as int, end as int).map_values(|c: char| lower(c)),
            forall|j: int| 0 <= j < i ==> part[j] == word@[j],
        decreases word.len() - i,
    {
        if to_lower(chars[start + i]) != word[i] {
            assert(part[i as int] != word@[i as int]);
            return false;
        }
        i += 1;
    }
    assert(part =~= word@);
    true
}

/// Reads a reply to the hit-or-stay question.
pub fn parse_decision(line: &str) -> (decision: Decision)
    ensures
        decision == decision_of(line@),
{
    let chars = chars_of(line);
    let mut start: usize = 0;
    while start < chars.len() && blank(chars[start])
        invariant
            start <= chars.len(),
            forall|i: int| 0 <= i < start ==> is_blank(#[trigger] chars@[i]),
        decreases chars.len() - start,
    {
        start += 1;
    }
    let mut end: usize = chars.len();
    while end > start && blank(chars[end - 1])
        invariant
            start <= end <= chars.len(),
            forall|i: int| end <= i < chars.len() ==> is_blank(#[trigger] chars@[i]),
        decreases end,
    {
        end -= 1;
    }
    proof {
        let rest = chars@.skip(start as int);
        lemma_trim_start_skips(chars@, start as int);
        lemma_trim_end_takes(rest, end - start);
        assert(rest.take(end - start) =~= chars@.subrange(start as int, end as int));
    }
    if spells(&chars, start, end, &vec!['h', 'i', 't']) {
        Decision::Hit
    } else if spells(&chars, start, end, &vec!['s', 't', 'a', 'y']) {
        Decision::Stay
    } else {
        Decision::Invalid
    }
}

/// Reads a reply to the play-again question: whether it refuses.
pub fn refuses(line: &str) -> (refusal: bool)
    ensures
        refusal == is_refusal(line@),
{
    !line.is_empty() && to_lower(line.get_char(0)) == 'n'
}

/// The words `hit` and `stay`, as they stand, are read as what they say.
pub proof fn lemma_plain_words()
    ensures
        decision_of("hit"@) == Decision::Hit,
        decision_of("stay"@) == Decision::Stay,
{
    reveal_strlit("hit");
    reveal_strlit("stay");
    let hit = seq!['h', 'i', 't'];
    let stay = seq!['s', 't', 'a', 'y'];
    assert("hit"@ =~= hit);
    assert("stay"@ =~= stay);
    lemma_trim_start_skips(hit, 0);
    lemma_trim_end_takes(hit, 3);
    lemma_trim_start_skips(stay, 0);
    lemma_trim_end_takes(stay, 4);
    assert(hit.skip(0) =~= hit);
    assert(hit.take(3) =~= hit);
    assert(stay.skip(0) =~= stay);
    assert(stay.take(4) =~= stay);
    assert(hit.map_values(|c: char| lower(c)) =~= hit);
    assert(stay.map_values(|c: char| lower(c)) =~= stay);
}

} // verus!
