use vstd::prelude::*;
use vstd::utf8::encode_utf8;

verus! {

/// The bytes of a string: its characters in UTF-8. Where this crate measures
/// or cuts text, it counts these bytes.
pub open spec fn utf8(chars: Seq<char>) -> Seq<u8> {
    encode_utf8(chars)
}

/// `pat` stands in `text` at offset `i`.
pub open spec fn occurs_at<A>(text: Seq<A>, pat: Seq<A>, i: int) -> bool {
    &&& 0 <= i
    &&& i + pat.len() <= text.len()
    &&& text.subrange(i, i + pat.len()) == pat
}

/// `pat` stands in `text` at offset `i` and at no offset before it.
pub open spec fn first_at<A>(text: Seq<A>, pat: Seq<A>, i: int) -> bool {
    &&& occurs_at(text, pat, i)
    &&& forall|j: int| 0 <= j < i ==> !occurs_at(text, pat, j)
}

/// `pat` stands somewhere in `text`.
pub open spec fn contains<A>(text: Seq<A>, pat: Seq<A>) -> bool {
    exists|i: int| occurs_at(text, pat, i)
}

/// The offset of the first occurrence of `pat` in `text`.
pub open spec fn first_index<A>(text: Seq<A>, pat: Seq<A>) -> int
    recommends
        contains(text, pat),
{
    choose|i: int| first_at(text, pat, i)
}

/// `text` parted at the first occurrence of `pat`: what stands before it and
/// what stands after it. `None` where `pat` does not occur.
pub open spec fn split_at_first<A>(text: Seq<A>, pat: Seq<A>) -> Option<(Seq<A>, Seq<A>)> {
    if contains(text, pat) {
        let i = first_index(text, pat);
        Some((text.subrange(0, i), text.subrange(i + pat.len(), text.len() as int)))
    } else {
        None
    }
}

/// What stands in `text` before the first occurrence of `pat`; all of `text`
/// where `pat` does not occur.
pub open spec fn head_before<A>(text: Seq<A>, pat: Seq<A>) -> Seq<A> {
    match split_at_first(text, pat) {
        Some((head, _)) => head,
        None => text,
    }
}

/// Two first occurrences of one pattern are the same occurrence.
pub proof fn lemma_first_at_unique<A>(text: Seq<A>, pat: Seq<A>, i: int, j: int)
    requires
        first_at(text, pat, i),
        first_at(text, pat, j),
    ensures
        i == j,
{
}

/// An occurrence at `i` leaves a first occurrence at or before `i`.
pub proof fn lemma_first_at_exists<A>(text: Seq<A>, pat: Seq<A>, i: int)
    requires
        occurs_at(text, pat, i),
    ensures
        exists|k: int| 0 <= k <= i && first_at(text, pat, k),
    decreases i,
{
    if exists|j: int| 0 <= j < i && occurs_at(text, pat, j) {
        let j = choose|j: int| 0 <= j < i && occurs_at(text, pat, j);
        lemma_first_at_exists(text, pat, j);
    } else {
        assert(first_at(text, pat, i));
    }
}

/// A first occurrence at `i` fixes what `split_at_first` and `head_before` give.
pub proof fn lemma_split_at_first<A>(text: Seq<A>, pat: Seq<A>, i: int)
    requires
        first_at(text, pat, i),
    ensures
        contains(text, pat),
        first_index(text, pat) == i,
        split_at_first(text, pat) == Some(
            (text.subrange(0, i), text.subrange(i + pat.len(), text.len() as int)),
        ),
        head_before(text, pat) == text.subrange(0, i),
{
    lemma_first_at_unique(text, pat, i, first_index(text, pat));
}

/// What stands before the first occurrence of a pattern is a prefix of the
/// text.
pub proof fn lemma_head_is_prefix<A>(text: Seq<A>, pat: Seq<A>)
    ensures
        occurs_at(text, head_before(text, pat), 0),
{
    if contains(text, pat) {
        let i = choose|i: int| occurs_at(text, pat, i);
        lemma_first_at_exists(text, pat, i);
        let k = choose|k: int| 0 <= k <= i && first_at(text, pat, k);
        lemma_split_at_first(text, pat, k);
        assert(text.subrange(0, k).subrange(0, k) =~= text.subrange(0, k));
    } else {
        assert(text.subrange(0, text.len() as int) =~= text);
    }
}

/// The two parts that `split_at_first` gives, with the pattern between them,
/// are the text.
pub proof fn lemma_split_rejoins<A>(text: Seq<A>, pat: Seq<A>)
    requires
        contains(text, pat),
    ensures
        split_at_first(text, pat) matches Some((head, tail)) && text == head + pat + tail,
{
    let i = choose|i: int| occurs_at(text, pat, i);
    lemma_first_at_exists(text, pat, i);
    let k = choose|k: int| 0 <= k <= i && first_at(text, pat, k);
    lemma_split_at_first(text, pat, k);
    let head = text.subrange(0, k);
    let tail = text.subrange(k + pat.len(), text.len() as int);
    assert(text =~= head + text.subrange(k, k + pat.len()) + tail);
}

/// Whether `pat` stands in `text` at offset `i`, which must leave room for it.
fn matches_at(text: &[u8], pat: &[u8], i: usize) -> (r: bool)
    requires
        i + pat@.len() <= text@.len(),
    ensures
        r == occurs_at(text@, pat@, i as int),
{
    let text_len: usize = text.len();
    let mut k: usize = 0;
    while k < pat.len()
        invariant
            k <= pat@.len(),
            i + pat@.len() <= text@.len(),
            text_len == text@.len(),
            forall|m: int| 0 <= m < k ==> text@[i + m] == pat@[m],
        decreases pat@.len() - k,
    {
        if text[i + k] != pat[k] {
            assert(text@.subrange(i as int, i + pat@.len())[k as int] != pat@[k as int]);
            return false;
        }
        k += 1;
    }
    assert(text@.subrange(i as int, i + pat@.len()) =~= pat@);
    true
}

/// The offset of the first occurrence of `pat` in `text`, if there is one.
pub fn find(text: &[u8], pat: &[u8]) -> (r: Option<usize>)
    ensures
        match r {
            Some(i) => first_at(text@, pat@, i as int),
            None => !contains(text@, pat@),
        },
{
    if pat.len() > text.len() {
        return None;
    }
    let last: usize = text.len() - pat.len();
    let mut i: usize = 0;
    while i < last
        invariant
            last == text@.len() - pat@.len(),
            i <= last,
            forall|j: int| 0 <= j < i ==> !occurs_at(text@, pat@, j),
        decreases last - i,
    {
        if matches_at(text, pat, i) {
            return Some(i);
        }
        i += 1;
    }
    if matches_at(text, pat, last) {
        Some(last)
    } else {
        None
    }
}

} // verus!
