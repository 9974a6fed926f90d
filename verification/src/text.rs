//! Character-level transformations on strings.
//!
//! Every function takes the input text and gives the transformed text. None
//! of them fails; they return a `Result` so that all operations have one
//! shape.

use vstd::prelude::*;
use crate::error::{Failure, OpError, outcome};

verus! {

/// The Unicode lowercase form of a text.
pub uninterp spec fn lowercase_of(s: Seq<char>) -> Seq<char>;

/// The Unicode uppercase form of a text.
pub uninterp spec fn uppercase_of(s: Seq<char>) -> Seq<char>;

/// Whether a character has the Unicode property `White_Space`: the ASCII
/// controls from tab to carriage return, the space, and the line, paragraph
/// and space separators beyond ASCII.
pub open spec fn white_space(c: char) -> bool {
    ||| '\u{9}' <= c <= '\u{d}'
    ||| c == ' '
    ||| c == '\u{85}'
    ||| c == '\u{a0}'
    ||| c == '\u{1680}'
    ||| '\u{2000}' <= c <= '\u{200a}'
    ||| c == '\u{2028}'
    ||| c == '\u{2029}'
    ||| c == '\u{202f}'
    ||| c == '\u{205f}'
    ||| c == '\u{3000}'
}

/// Whether `c` is the ASCII space character.
pub open spec fn is_space(c: char) -> bool {
    c == ' '
}

/// Whether `c` is one of `a e i o u`, in either case.
pub open spec fn is_vowel(c: char) -> bool {
    c == 'a' || c == 'e' || c == 'i' || c == 'o' || c == 'u' || c == 'A' || c == 'E' || c == 'I'
        || c == 'O' || c == 'U'
}

/// The characters of `s` that are not ASCII spaces, in their order.
pub open spec fn without_spaces(s: Seq<char>) -> Seq<char> {
    s.filter(|c: char| !is_space(c))
}

/// How many ASCII spaces `s` holds.
pub open spec fn count_spaces(s: Seq<char>) -> nat {
    s.filter(|c: char| is_space(c)).len()
}

/// The characters of `s` that are not vowels, in their order.
pub open spec fn without_vowels(s: Seq<char>) -> Seq<char> {
    s.filter(|c: char| !is_vowel(c))
}

/// `s` without the whitespace it starts with.
pub open spec fn strip_front(s: Seq<char>) -> Seq<char>
    decreases s.len(),
{
    if s.len() > 0 && white_space(s.first()) {
        strip_front(s.drop_first())
    } else {
        s
    }
}

/// `s` without the whitespace it ends with.
pub open spec fn strip_back(s: Seq<char>) -> Seq<char>
    decreases s.len(),
{
    if s.len() > 0 && white_space(s.last()) {
        strip_back(s.drop_last())
    } else {
        s
    }
}

/// `s` without the whitespace around it.
pub open spec fn trimmed(s: Seq<char>) -> Seq<char> {
    strip_back(strip_front(s))
}

/// The lowercase form of a string.
///
/// Trusted: `str::to_lowercase`, whose result depends on the text alone.
#[verifier::external_body]
fn to_lowercase(s: &str) -> (r: String)
    ensures
        r@ == lowercase_of(s@),
{
    s.to_lowercase()
}

/// The uppercase form of a string.
///
/// Trusted: `str::to_uppercase`, whose result depends on the text alone.
#[verifier::external_body]
fn to_uppercase(s: &str) -> (r: String)
    ensures
        r@ == uppercase_of(s@),
{
    s.to_uppercase()
}

/// Whether a character is whitespace.
pub fn is_whitespace(c: char) -> (b: bool)
    ensures
        b == white_space(c),
{
    ('\u{9}' <= c && c <= '\u{d}') || c == ' ' || c == '\u{85}' || c == '\u{a0}' || c == '\u{1680}'
        || ('\u{2000}' <= c && c <= '\u{200a}') || c == '\u{2028}' || c == '\u{2029}' || c
        == '\u{202f}' || c == '\u{205f}' || c == '\u{3000}'
}

/// Appends one character to a string.
///
/// Trusted: `String::push` adds exactly the given character at the end.
#[verifier::external_body]
pub(crate) fn push_char(s: &mut String, c: char)
    ensures
        final(s)@ == old(s)@.push(c),
{
    s.push(c);
}

/// Filtering one more element of `s` either appends it or changes nothing.
pub proof fn lemma_filter_step(s: Seq<char>, pred: spec_fn(char) -> bool, i: int)
    requires
        0 <= i < s.len(),
    ensures
        s.take(i + 1).filter(pred) == if pred(s[i]) {
            s.take(i).filter(pred).push(s[i])
        } else {
            s.take(i).filter(pred)
        },
{
    reveal(Seq::filter);
    assert(s.take(i + 1).drop_last() =~= s.take(i));
    assert(s.take(i + 1).last() == s[i]);
}

/// A sequence whose elements all pass a filter is left as it is.
pub proof fn lemma_filter_all(s: Seq<char>, pred: spec_fn(char) -> bool)
    requires
        forall|i: int| 0 <= i < s.len() ==> pred(#[trigger] s[i]),
    ensures
        s.filter(pred) == s,
    decreases s.len(),
{
    reveal(Seq::filter);
    if s.len() > 0 {
        lemma_filter_all(s.drop_last(), pred);
        assert(s.drop_last().push(s.last()) =~= s);
    }
}

/// The spaces of a text and its other characters add up to the whole.
pub proof fn lemma_space_count(s: Seq<char>)
    ensures
        without_spaces(s).len() + count_spaces(s) == s.len(),
    decreases s.len(),
{
    reveal(Seq::filter);
    if s.len() > 0 {
        lemma_space_count(s.drop_last());
    }
}

/// The characters of a string, in order.
pub(crate) fn chars_of(input: &str) -> (v: Vec<char>)
    ensures
        v@ == input@,
{
    let mut v: Vec<char> = Vec::new();
    let chars = input.chars();
    for c in it: chars
        invariant
            it.seq() == input@,
            v@ == input@.take(it.index() as int),
    {
        v.push(c);
        assert(input@.take(it.index() + 1) =~= input@.take(it.index() as int).push(c));
    }
    assert(input@.take(input@.len() as int) =~= input@);
    v
}

/// Removes the whitespace around a text; whitespace inside it stays.
pub fn trim(input: &str) -> (r: String)
    ensures
        r@ == trimmed(input@),
{
    let chars = chars_of(input);
    let mut start: usize = 0;
    assert(input@.skip(0) =~= input@);
    while start < chars.len() && is_whitespace(chars[start])
        invariant
            start <= chars.len(),
            chars@ == input@,
            strip_front(input@) == strip_front(input@.skip(start as int)),
        decreases chars.len() - start,
    {
        assert(input@.skip(start as int).drop_first() =~= input@.skip(start + 1));
        start += 1;
    }
    let ghost front = input@.skip(start as int);
    assert(strip_front(input@) == front);
    let mut end: usize = chars.len();
    assert(input@.subrange(start as int, end as int) =~= front);
    while end > start && is_whitespace(chars[end - 1])
        invariant
            start <= end <= chars.len(),
            chars@ == input@,
            strip_back(front) == strip_back(input@.subrange(start as int, end as int)),
        decreases end,
    {
        assert(input@.subrange(start as int, end as int).drop_last() =~= input@.subrange(
            start as int,
            end - 1,
        ));
        end -= 1;
    }
    let mut out = String::new();
    let mut k: usize = start;
    while k < end
        invariant
            start <= k <= end <= chars.len(),
            chars@ == input@,
            out@ == input@.subrange(start as int, k as int),
        decreases end - k,
    {
        push_char(&mut out, chars[k]);
        assert(input@.subrange(start as int, k + 1) =~= input@.subrange(start as int, k as int).push(
            input@[k as int],
        ));
        k += 1;
    }
    out
}

/// Converts to lowercase, by the Unicode rules.
pub fn lowercase(input: &str) -> (r: Result<String, OpError>)
    ensures
        outcome(r) == Ok::<Seq<char>, Failure>(lowercase_of(input@)),
{
    Ok(to_lowercase(input))
}

/// Converts to uppercase, by the Unicode rules.
pub fn uppercase(input: &str) -> (r: Result<String, OpError>)
    ensures
        outcome(r) == Ok::<Seq<char>, Failure>(uppercase_of(input@)),
{
    Ok(to_uppercase(input))
}

/// Removes every ASCII space; tabs, newlines and other whitespace stay.
pub fn trimspaces(input: &str) -> (r: Result<String, OpError>)
    ensures
        outcome(r) == Ok::<Seq<char>, Failure>(without_spaces(input@)),
        r is Ok && !r->Ok_0@.contains(' '),
        r is Ok && r->Ok_0@.len() == input@.len() - count_spaces(input@),
{
    let mut out = String::new();
    let chars = input.chars();
    for c in it: chars
        invariant
            it.seq() == input@,
            out@ == without_spaces(input@.take(it.index() as int)),
    {
        proof {
            lemma_filter_step(input@, |c: char| !is_space(c), it.index() as int);
        }
        if c != ' ' {
            push_char(&mut out, c);
        }
    }
    proof {
        assert(input@.take(input@.len() as int) =~= input@);
        lemma_no_spaces_left(input@);
        lemma_space_count(input@);
    }
    Ok(out)
}

/// Reverses the order of the characters (Unicode scalar values).
pub fn reverse(input: &str) -> (r: Result<String, OpError>)
    ensures
        outcome(r) == Ok::<Seq<char>, Failure>(input@.reverse()),
{
    let chars = chars_of(input);
    let mut out = String::new();
    let mut i: usize = chars.len();
    while i > 0
        invariant
            i <= chars.len(),
            chars@ == input@,
            out@ == input@.reverse().take(chars.len() - i),
        decreases i,
    {
        i -= 1;
        push_char(&mut out, chars[i]);
        assert(input@.reverse().take(chars.len() - i) =~= input@.reverse().take(
            chars.len() - i - 1,
        ).push(chars@[i as int]));
    }
    assert(input@.reverse().take(chars.len() as int) =~= input@.reverse());
    Ok(out)
}

/// Removes every vowel `a e i o u`, in either case.
pub fn novowels(input: &str) -> (r: Result<String, OpError>)
    ensures
        outcome(r) == Ok::<Seq<char>, Failure>(without_vowels(input@)),
        r is Ok && forall|c: char| is_vowel(c) ==> !r->Ok_0@.contains(c),
{
    let mut out = String::new();
    let chars = input.chars();
    for c in it: chars
        invariant
            it.seq() == input@,
            out@ == without_vowels(input@.take(it.index() as int)),
    {
        proof {
            lemma_filter_step(input@, |c: char| !is_vowel(c), it.index() as int);
        }
        let vowel = c == 'a' || c == 'e' || c == 'i' || c == 'o' || c == 'u' || c == 'A' || c
            == 'E' || c == 'I' || c == 'O' || c == 'U';
        if !vowel {
            push_char(&mut out, c);
        }
    }
    proof {
        assert(input@.take(input@.len() as int) =~= input@);
        lemma_no_vowels_left(input@);
    }
    Ok(out)
}

/// No ASCII space is left once the spaces are removed.
pub proof fn lemma_no_spaces_left(s: Seq<char>)
    ensures
        !without_spaces(s).contains(' '),
{
    if without_spaces(s).contains(' ') {
        let i = choose|i: int| 0 <= i < without_spaces(s).len() && without_spaces(s)[i] == ' ';
        s.lemma_filter_pred(|c: char| !is_space(c), i);
    }
}

/// No vowel is left once the vowels are removed.
pub proof fn lemma_no_vowels_left(s: Seq<char>)
    ensures
        forall|c: char| is_vowel(c) ==> !without_vowels(s).contains(c),
{
    assert forall|c: char| is_vowel(c) implies !without_vowels(s).contains(c) by {
        if without_vowels(s).contains(c) {
            let i = choose|i: int| 0 <= i < without_vowels(s).len() && without_vowels(s)[i] == c;
            s.lemma_filter_pred(|c: char| !is_vowel(c), i);
        }
    }
}

/// Reversing twice gives the text back.
pub proof fn lemma_reverse_involution(s: Seq<char>)
    ensures
        s.reverse().reverse() == s,
{
    assert(s.reverse().reverse() =~= s);
}

/// Removing the vowels a second time changes nothing.
pub proof fn lemma_novowels_idempotent(s: Seq<char>)
    ensures
        without_vowels(without_vowels(s)) == without_vowels(s),
{
    let keep = |c: char| !is_vowel(c);
    assert forall|i: int| 0 <= i < s.filter(keep).len() implies keep(#[trigger] s.filter(keep)[i]) by {
        s.lemma_filter_pred(keep, i);
    }
    lemma_filter_all(s.filter(keep), keep);
}

} // verus!
