use crate::text::{find, head_before, lemma_split_at_first, split_at_first, utf8};
use crate::text_laws::{
    law_split_commutes_with_utf8, lemma_first_occurrence_on_boundaries, lemma_utf8_concat,
    lemma_utf8_injective,
};
use vstd::prelude::*;
use vstd::string::*;
use vstd::utf8::*;

verus! {

/// `s` parted at the first occurrence of `pat`, as `str::split_once` parts it:
/// what stands before the occurrence and what stands after it. `None` where
/// `pat` does not occur. The occurrence is the first among the characters and
/// the first among the bytes, which is the same.
pub fn split_once<'a>(s: &'a str, pat: &str) -> (r: Option<(&'a str, &'a str)>)
    ensures
        match r {
            Some((head, tail)) => {
                &&& split_at_first(s@, pat@) == Some((head@, tail@))
                &&& split_at_first(utf8(s@), utf8(pat@)) == Some((utf8(head@), utf8(tail@)))
            },
            None => {
                &&& split_at_first(s@, pat@) is None
                &&& split_at_first(utf8(s@), utf8(pat@)) is None
            },
        },
{
    let text = s.as_bytes();
    let needle = pat.as_bytes();
    proof {
        encode_utf8_valid_utf8(s@);
        encode_utf8_valid_utf8(pat@);
        law_split_commutes_with_utf8(s@, pat@);
    }
    match find(text, needle) {
        None => None,
        Some(i) => {
            proof {
                lemma_first_occurrence_on_boundaries(text@, needle@, i as int);
                lemma_split_at_first(text@, needle@, i as int);
            }
            let (head, rest) = s.split_at(i);
            let (_, tail) = rest.split_at(needle.len());
            proof {
                assert(utf8(tail@) =~= text@.subrange(i + needle@.len(), text@.len() as int));
                let (head_chars, tail_chars) = split_at_first(s@, pat@)->Some_0;
                lemma_utf8_injective(head_chars, head@);
                lemma_utf8_injective(tail_chars, tail@);
            }
            Some((head, tail))
        },
    }
}

/// What stands in `s` before the first occurrence of `pat`, or all of `s`
/// where `pat` does not occur: the first piece that `str::split` gives.
pub fn first_piece<'a>(s: &'a str, pat: &str) -> (head: &'a str)
    ensures
        head@ == head_before(s@, pat@),
        utf8(head@) == head_before(utf8(s@), utf8(pat@)),
{
    match split_once(s, pat) {
        Some((head, _)) => head,
        None => s,
    }
}

/// The length of `s` in bytes.
pub fn byte_len(s: &str) -> (n: usize)
    ensures
        n == utf8(s@).len(),
{
    s.as_bytes().len()
}

/// A new string that holds `a`, then `b`.
pub fn join(a: &str, b: &str) -> (r: String)
    ensures
        r@ == a@ + b@,
        utf8(r@) == utf8(a@) + utf8(b@),
{
    let mut r = a.to_owned();
    r.append(b);
    proof {
        lemma_utf8_concat(a@, b@);
    }
    r
}

/// A new string that holds `a`, then `b`, then `c`.
pub fn join3(a: &str, b: &str, c: &str) -> (r: String)
    ensures
        r@ == a@ + b@ + c@,
        utf8(r@) == utf8(a@) + utf8(b@) + utf8(c@),
{
    let mut r = a.to_owned();
    r.append(b);
    r.append(c);
    proof {
        lemma_utf8_concat(a@, b@);
        lemma_utf8_concat(a@ + b@, c@);
    }
    r
}

} // verus!
