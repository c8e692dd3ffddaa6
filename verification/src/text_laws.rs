use crate::text::{
    contains, first_at, head_before, lemma_first_at_exists, lemma_split_at_first, occurs_at,
    split_at_first, utf8,
};
use vstd::prelude::*;
use vstd::utf8::*;

verus! {

/// Encoding a concatenation gives the concatenation of the encodings.
pub proof fn lemma_utf8_concat(a: Seq<char>, b: Seq<char>)
    ensures
        utf8(a + b) == utf8(a) + utf8(b),
    decreases a.len(),
{
    if a.len() == 0 {
        assert(a + b =~= b);
        assert(utf8(a) + utf8(b) =~= utf8(b));
    } else {
        lemma_utf8_concat(a.drop_first(), b);
        assert((a + b).drop_first() =~= a.drop_first() + b);
        assert(utf8(a + b) =~= utf8(a) + utf8(b));
    }
}

/// In well-formed UTF-8, a well-formed prefix ends on a character boundary.
pub proof fn lemma_prefix_ends_on_boundary(bytes: Seq<u8>, prefix: Seq<u8>)
    requires
        valid_utf8(bytes),
        valid_utf8(prefix),
        occurs_at(bytes, prefix, 0),
    ensures
        is_char_boundary(bytes, prefix.len() as int),
    decreases prefix.len(),
{
    if prefix.len() > 0 {
        let width = length_of_first_scalar(prefix);
        assert(bytes[0] == bytes.subrange(0, prefix.len() as int)[0]);
        assert(length_of_first_scalar(bytes) == width);
        let rest = pop_first_scalar(bytes);
        let prefix_rest = pop_first_scalar(prefix);
        assert(rest.subrange(0, prefix_rest.len() as int) =~= prefix_rest) by {
            assert forall|k: int| 0 <= k < prefix_rest.len() implies rest[k] == prefix_rest[k] by {
                assert(bytes[width + k] == bytes.subrange(0, prefix.len() as int)[width + k]);
            }
        }
        lemma_prefix_ends_on_boundary(rest, prefix_rest);
    }
}

/// In well-formed UTF-8, an occurrence of well-formed bytes that are not
/// empty starts on a character boundary.
pub proof fn lemma_occurrence_starts_on_boundary(text: Seq<u8>, pat: Seq<u8>, i: int)
    requires
        valid_utf8(text),
        valid_utf8(pat),
        pat.len() > 0,
        occurs_at(text, pat, i),
    ensures
        is_char_boundary(text, i),
{
    if i > 0 {
        assert(text[i] == text.subrange(i, i + pat.len())[0]);
        assert(!is_continuation_byte(pat[0]));
        is_char_boundary_iff_not_is_continuation_byte(text, i);
    }
}

/// The first occurrence of one string's bytes in another's starts on a
/// character boundary, and the bytes from there on hold a boundary where the
/// occurrence ends.
pub proof fn lemma_first_occurrence_on_boundaries(text: Seq<u8>, pat: Seq<u8>, i: int)
    requires
        valid_utf8(text),
        valid_utf8(pat),
        first_at(text, pat, i),
    ensures
        is_char_boundary(text, i),
        valid_utf8(text.subrange(i, text.len() as int)),
        is_char_boundary(text.subrange(i, text.len() as int), pat.len() as int),
{
    if pat.len() == 0 {
        assert(text.subrange(0, 0) =~= pat);
        assert(occurs_at(text, pat, 0));
    } else {
        lemma_occurrence_starts_on_boundary(text, pat, i);
    }
    valid_utf8_split(text, i);
    let tail = text.subrange(i, text.len() as int);
    assert(tail.subrange(0, pat.len() as int) =~= text.subrange(i, i + pat.len()));
    lemma_prefix_ends_on_boundary(tail, pat);
}

/// Where two well-formed runs of bytes are joined, the place of the join lies
/// between characters.
pub proof fn lemma_join_is_boundary(a: Seq<u8>, b: Seq<u8>)
    requires
        valid_utf8(a),
        valid_utf8(b),
    ensures
        valid_utf8(a + b),
        is_char_boundary(a + b, a.len() as int),
        is_char_boundary(a + b, 0),
        is_char_boundary(a + b, (a + b).len() as int),
{
    valid_utf8_concat(a, b);
    assert((a + b).subrange(0, a.len() as int) =~= a);
    lemma_prefix_ends_on_boundary(a + b, a);
    is_char_boundary_start_end_of_seq(a + b);
}

/// A boundary of a well-formed prefix is a boundary of the whole.
pub proof fn lemma_boundary_of_prefix(bytes: Seq<u8>, prefix: Seq<u8>, at: int)
    requires
        valid_utf8(bytes),
        valid_utf8(prefix),
        occurs_at(bytes, prefix, 0),
        is_char_boundary(prefix, at),
    ensures
        is_char_boundary(bytes, at),
{
    if at > 0 {
        if at < prefix.len() {
            is_char_boundary_iff_not_is_continuation_byte(prefix, at);
            assert(bytes[at] == bytes.subrange(0, prefix.len() as int)[at]);
            is_char_boundary_iff_not_is_continuation_byte(bytes, at);
        } else {
            lemma_prefix_ends_on_boundary(bytes, prefix);
        }
    }
}

/// Strings with the same bytes are the same string.
pub proof fn lemma_utf8_injective(a: Seq<char>, b: Seq<char>)
    requires
        utf8(a) == utf8(b),
    ensures
        a == b,
{
    encode_utf8_decode_utf8(a);
    encode_utf8_decode_utf8(b);
}

/// Characters take up bytes: the bytes of a string that is not empty are not
/// empty.
pub proof fn lemma_utf8_not_empty(chars: Seq<char>)
    requires
        chars.len() > 0,
    ensures
        utf8(chars).len() > 0,
{
}

/// A longer prefix of a string has more bytes.
pub proof fn lemma_utf8_prefix_grows(chars: Seq<char>, shorter: int, longer: int)
    requires
        0 <= shorter < longer <= chars.len(),
    ensures
        utf8(chars.subrange(0, shorter)).len() < utf8(chars.subrange(0, longer)).len(),
{
    let head = chars.subrange(0, shorter);
    let more = chars.subrange(shorter, longer);
    assert(chars.subrange(0, longer) =~= head + more);
    lemma_utf8_concat(head, more);
    lemma_utf8_not_empty(more);
}

/// Where `pat` stands in `text` at the character `k`, the bytes of `pat` stand
/// in the bytes of `text` where the bytes of the first `k` characters end.
pub proof fn lemma_occurrence_in_bytes(text: Seq<char>, pat: Seq<char>, k: int)
    requires
        occurs_at(text, pat, k),
    ensures
        utf8(text) == utf8(text.subrange(0, k)) + utf8(pat) + utf8(
            text.subrange(k + pat.len(), text.len() as int),
        ),
        occurs_at(utf8(text), utf8(pat), utf8(text.subrange(0, k)).len() as int),
{
    let head = text.subrange(0, k);
    let tail = text.subrange(k + pat.len(), text.len() as int);
    assert(text =~= head + pat + tail);
    lemma_utf8_concat(head, pat);
    lemma_utf8_concat(head + pat, tail);
    let offset = utf8(head).len() as int;
    assert(utf8(text).subrange(offset, offset + utf8(pat).len()) =~= utf8(pat));
}

/// Where the bytes of `pat` stand in the bytes of `text` at a character
/// boundary `i`, `pat` stands in `text` at some character `k`, and the bytes
/// before and after the one occurrence are those of the characters before and
/// after the other.
pub proof fn lemma_occurrence_in_chars(text: Seq<char>, pat: Seq<char>, i: int) -> (k: int)
    requires
        occurs_at(utf8(text), utf8(pat), i),
        is_char_boundary(utf8(text), i),
    ensures
        occurs_at(text, pat, k),
        utf8(text.subrange(0, k)) == utf8(text).subrange(0, i),
        utf8(text.subrange(k + pat.len(), text.len() as int)) == utf8(text).subrange(
            i + utf8(pat).len(),
            utf8(text).len() as int,
        ),
{
    encode_utf8_valid_utf8(text);
    encode_utf8_valid_utf8(pat);
    let bytes = utf8(text);
    let needle = utf8(pat);
    let head = bytes.subrange(0, i);
    let rest = bytes.subrange(i, bytes.len() as int);
    valid_utf8_split(bytes, i);
    decode_utf8_split(bytes, i);
    encode_utf8_decode_utf8(text);
    assert(rest.subrange(0, needle.len() as int) =~= bytes.subrange(i, i + needle.len()));
    lemma_prefix_ends_on_boundary(rest, needle);
    valid_utf8_split(rest, needle.len() as int);
    decode_utf8_split(rest, needle.len() as int);
    encode_utf8_decode_utf8(pat);
    let tail = rest.subrange(needle.len() as int, rest.len() as int);
    assert(tail =~= bytes.subrange(i + needle.len(), bytes.len() as int));
    let head_chars = decode_utf8(head);
    let tail_chars = decode_utf8(tail);
    assert(text =~= head_chars + pat + tail_chars);
    let k = head_chars.len() as int;
    assert(text.subrange(k, k + pat.len()) =~= pat);
    assert(text.subrange(0, k) =~= head_chars);
    assert(text.subrange(k + pat.len(), text.len() as int) =~= tail_chars);
    decode_utf8_encode_utf8(head);
    decode_utf8_encode_utf8(tail);
    k
}

/// Where `pat` stands in `text` first at the character `k`, the bytes of
/// `pat` stand in the bytes of `text` first where the bytes of the first `k`
/// characters end.
pub proof fn lemma_first_in_bytes(text: Seq<char>, pat: Seq<char>, k: int)
    requires
        first_at(text, pat, k),
    ensures
        first_at(utf8(text), utf8(pat), utf8(text.subrange(0, k)).len() as int),
{
    let bytes = utf8(text);
    let needle = utf8(pat);
    let at = utf8(text.subrange(0, k)).len() as int;
    lemma_occurrence_in_bytes(text, pat, k);
    assert forall|j: int| 0 <= j < at implies !occurs_at(bytes, needle, j) by {
        if occurs_at(bytes, needle, j) {
            if pat.len() == 0 {
                assert(text.subrange(0, 0) =~= pat);
                assert(occurs_at(text, pat, 0));
                assert(text.subrange(0, k) =~= Seq::<char>::empty());
            } else {
                encode_utf8_valid_utf8(text);
                encode_utf8_valid_utf8(pat);
                lemma_utf8_not_empty(pat);
                lemma_occurrence_starts_on_boundary(bytes, needle, j);
                let found = lemma_occurrence_in_chars(text, pat, j);
                assert(utf8(text.subrange(0, found)).len() == j);
                if found < k {
                    assert(!occurs_at(text, pat, found));
                } else if k < found {
                    lemma_utf8_prefix_grows(text, k, found);
                }
            }
        }
    }
}

/// Where `pat` does not stand in `text`, the bytes of `pat` do not stand in
/// the bytes of `text`.
pub proof fn lemma_none_in_bytes(text: Seq<char>, pat: Seq<char>)
    requires
        !contains(text, pat),
    ensures
        !contains(utf8(text), utf8(pat)),
{
    let bytes = utf8(text);
    let needle = utf8(pat);
    if contains(bytes, needle) {
        let i = choose|i: int| occurs_at(bytes, needle, i);
        if pat.len() == 0 {
            assert(text.subrange(0, 0) =~= pat);
            assert(occurs_at(text, pat, 0));
        } else {
            encode_utf8_valid_utf8(text);
            encode_utf8_valid_utf8(pat);
            lemma_utf8_not_empty(pat);
            lemma_occurrence_starts_on_boundary(bytes, needle, i);
            let found = lemma_occurrence_in_chars(text, pat, i);
        }
    }
}

/// To part a string at the first occurrence of another and take the bytes of
/// the parts is to part its bytes at the first occurrence of the other's
/// bytes: among the bytes, no occurrence of a string that is not empty starts
/// inside a character.
pub proof fn law_split_commutes_with_utf8(text: Seq<char>, pat: Seq<char>)
    ensures
        split_at_first(utf8(text), utf8(pat)) == match split_at_first(text, pat) {
            Some((head, tail)) => Some((utf8(head), utf8(tail))),
            None => None,
        },
        head_before(utf8(text), utf8(pat)) == utf8(head_before(text, pat)),
{
    let bytes = utf8(text);
    let needle = utf8(pat);
    if contains(text, pat) {
        let any = choose|k: int| occurs_at(text, pat, k);
        lemma_first_at_exists(text, pat, any);
        let k = choose|k: int| 0 <= k <= any && first_at(text, pat, k);
        lemma_split_at_first(text, pat, k);
        lemma_first_in_bytes(text, pat, k);
        lemma_occurrence_in_bytes(text, pat, k);
        let at = utf8(text.subrange(0, k)).len() as int;
        lemma_split_at_first(bytes, needle, at);
        assert(bytes.subrange(0, at) =~= utf8(text.subrange(0, k)));
        assert(bytes.subrange(at + needle.len(), bytes.len() as int) =~= utf8(
            text.subrange(k + pat.len(), text.len() as int),
        ));
    } else {
        lemma_none_in_bytes(text, pat);
    }
}

} // verus!
