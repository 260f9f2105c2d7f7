//! Text handling shared by the rest of the library.

use crate::outside::push_char;
use vstd::prelude::*;

verus! {

/// The characters of an optional text.
pub open spec fn opt_view(text: Option<String>) -> Option<Seq<char>> {
    match text {
        Some(value) => Some(value@),
        None => None,
    }
}

/// The characters of each text of a list.
pub open spec fn texts_view(texts: Seq<String>) -> Seq<Seq<char>> {
    texts.map_values(|text: String| text@)
}

/// A copy of an optional text.
pub fn clone_opt(text: &Option<String>) -> (copy: Option<String>)
    ensures
        copy == *text,
{
    match text {
        Some(value) => Some(value.clone()),
        None => None,
    }
}

/// Whether two optional texts are both absent or hold the same characters.
pub fn same_opt(left: &Option<String>, right: &Option<String>) -> (same: bool)
    ensures
        same == (opt_view(*left) == opt_view(*right)),
{
    match (left, right) {
        (Some(a), Some(b)) => *a == *b,
        (None, None) => true,
        _ => false,
    }
}

/// A copy of a list of texts.
pub fn clone_texts(texts: &Vec<String>) -> (copy: Vec<String>)
    ensures
        copy@ == texts@,
{
    let mut copy: Vec<String> = Vec::new();
    let mut i: usize = 0;
    while i < texts.len()
        invariant
            i <= texts.len(),
            copy@ == texts@.subrange(0, i as int),
        decreases texts.len() - i,
    {
        copy.push(texts[i].clone());
        i += 1;
    }
    assert(texts@.subrange(0, texts@.len() as int) == texts@);
    copy
}

/// Whether two lists hold the same texts in the same order.
pub fn same_texts(left: &Vec<String>, right: &Vec<String>) -> (same: bool)
    ensures
        same == (texts_view(left@) == texts_view(right@)),
{
    if left.len() != right.len() {
        assert(texts_view(left@).len() != texts_view(right@).len());
        return false;
    }
    let mut i: usize = 0;
    while i < left.len()
        invariant
            i <= left.len(),
            left.len() == right.len(),
            forall|j: int| 0 <= j < i ==> left@[j]@ == right@[j]@,
        decreases left.len() - i,
    {
        if left[i] != right[i] {
            assert(texts_view(left@)[i as int] != texts_view(right@)[i as int]);
            return false;
        }
        i += 1;
    }
    assert(texts_view(left@) =~= texts_view(right@));
    true
}

/// The characters of a text, one by one.
pub fn chars_of(text: &str) -> (chars: Vec<char>)
    ensures
        chars@ == text@,
{
    let mut chars: Vec<char> = Vec::new();
    for c in it: text.chars()
        invariant
            it.seq() == text@,
            chars@ == text@.take(it.index() as int),
    {
        chars.push(c);
    }
    chars
}

/// The text made of the given characters.
pub fn string_of(chars: &Vec<char>) -> (text: String)
    ensures
        text@ == chars@,
{
    let mut text = String::new();
    let mut i: usize = 0;
    while i < chars.len()
        invariant
            i <= chars.len(),
            text@ == chars@.subrange(0, i as int),
        decreases chars.len() - i,
    {
        push_char(&mut text, chars[i]);
        i += 1;
    }
    assert(chars@.subrange(0, chars@.len() as int) == chars@);
    text
}

/// `text` with every occurrence of `pattern` taken out, reading from the left:
/// where the pattern starts at the current position it is skipped whole, and
/// otherwise one character is kept. An empty pattern takes nothing out.
pub open spec fn without(text: Seq<char>, pattern: Seq<char>) -> Seq<char>
    decreases text.len(),
{
    if pattern.len() == 0 || text.len() < pattern.len() {
        text
    } else if text.take(pattern.len() as int) == pattern {
        without(text.skip(pattern.len() as int), pattern)
    } else {
        seq![text[0]] + without(text.skip(1), pattern)
    }
}

fn starts_at(text: &Vec<char>, at: usize, pattern: &Vec<char>) -> (found: bool)
    requires
        at + pattern.len() <= text.len(),
    ensures
        found == (text@.skip(at as int).take(pattern@.len() as int) == pattern@),
{
    let ghost window = text@.skip(at as int).take(pattern@.len() as int);
    let mut k: usize = 0;
    while k < pattern.len()
        invariant
            k <= pattern.len(),
            at + pattern.len() <= text.len(),
            window == text@.skip(at as int).take(pattern@.len() as int),
            forall|j: int| 0 <= j < k ==> window[j] == pattern@[j],
        decreases pattern.len() - k,
    {
        if text[at + k] != pattern[k] {
            assert(window[k as int] != pattern@[k as int]);
            return false;
        }
        k += 1;
    }
    assert(window =~= pattern@);
    true
}

/// Takes every occurrence of `pattern` out of `text`.
pub fn remove_all(text: &Vec<char>, pattern: &Vec<char>) -> (kept: Vec<char>)
    ensures
        kept@ == without(text@, pattern@),
{
    let mut kept: Vec<char> = Vec::new();
    let mut at: usize = 0;
    if pattern.len() == 0 {
        while at < text.len()
            invariant
                at <= text.len(),
                kept@ == text@.subrange(0, at as int),
            decreases text.len() - at,
        {
            kept.push(text[at]);
            at += 1;
        }
        assert(text@.subrange(0, text@.len() as int) == text@);
        return kept;
    }
    assert(text@.skip(0) == text@);
    assert(Seq::<char>::empty() + without(text@, pattern@) == without(text@, pattern@));
    while at < text.len()
        invariant
            at <= text.len(),
            pattern.len() > 0,
            kept@ + without(text@.skip(at as int), pattern@) == without(text@, pattern@),
        decreases text.len() - at,
    {
        let ghost rest = text@.skip(at as int);
        if text.len() - at < pattern.len() {
            let ghost before = kept@;
            let mut k: usize = at;
            while k < text.len()
                invariant
                    at <= k <= text.len(),
                    kept@ == before + text@.subrange(at as int, k as int),
                decreases text.len() - k,
            {
                kept.push(text[k]);
                k += 1;
            }
            assert(text@.subrange(at as int, text@.len() as int) == rest);
            assert(without(rest, pattern@) == rest);
            assert(without(text@.skip(text@.len() as int), pattern@) == Seq::<char>::empty());
            assert(kept@ + Seq::<char>::empty() == kept@);
            at = text.len();
        } else if starts_at(text, at, pattern) {
            assert(rest.skip(pattern@.len() as int) == text@.skip(at + pattern@.len()));
            at += pattern.len();
        } else {
            assert(rest.skip(1) == text@.skip(at + 1));
            assert(rest[0] == text@[at as int]);
            let ghost before = kept@;
            kept.push(text[at]);
            assert(kept@ + without(rest.skip(1), pattern@) == before + (seq![rest[0]] + without(
                rest.skip(1),
                pattern@,
            )));
            at += 1;
        }
    }
    assert(without(text@.skip(text@.len() as int), pattern@) == Seq::<char>::empty());
    assert(kept@ + Seq::<char>::empty() == kept@);
    kept
}

} // verus!
