//! Texts and their bytes.
//!
//! Strings are compared byte by byte, while contracts speak of characters.
//! The lemmas here carry equality and prefixes from one to the other.

use vstd::prelude::*;
use vstd::utf8::*;

verus! {

/// Two texts with the same bytes are the same text.
pub proof fn lemma_encoding_is_injective(a: Seq<char>, b: Seq<char>)
    requires
        encode_utf8(a) == encode_utf8(b),
    ensures
        a == b,
{
    encode_utf8_decode_utf8(a);
    encode_utf8_decode_utf8(b);
}

/// The bytes of a concatenation are the bytes of its parts, one after the
/// other.
pub proof fn lemma_encoding_of_concat(a: Seq<char>, b: Seq<char>)
    ensures
        encode_utf8(a + b) == encode_utf8(a) + encode_utf8(b),
    decreases a.len(),
{
    if a.len() > 0 {
        assert((a + b).drop_first() =~= a.drop_first() + b);
        lemma_encoding_of_concat(a.drop_first(), b);
    }
}

/// A prefix of a text has a prefix of its bytes.
pub proof fn lemma_encoding_of_prefix(p: Seq<char>, t: Seq<char>)
    requires
        p.is_prefix_of(t),
    ensures
        encode_utf8(p).is_prefix_of(encode_utf8(t)),
{
    let rest = t.subrange(p.len() as int, t.len() as int);
    assert(t =~= p + rest);
    lemma_encoding_of_concat(p, rest);
}

/// A text whose bytes begin the bytes of another begins that other text: no
/// character's bytes begin those of a different character.
pub proof fn lemma_prefix_of_encoding(p: Seq<char>, t: Seq<char>)
    requires
        encode_utf8(p).is_prefix_of(encode_utf8(t)),
    ensures
        p.is_prefix_of(t),
    decreases p.len(),
{
    if p.len() > 0 {
        let pb = encode_utf8(p);
        let tb = encode_utf8(t);
        encode_utf8_first_scalar(p);
        encode_utf8_first_scalar(t);
        char_u32_cast(p[0], decode_first_scalar(pb));
        char_u32_cast(t[0], decode_first_scalar(tb));
        let width = length_of_first_scalar(pb);
        assert(pop_first_scalar(tb) =~= encode_utf8(t.drop_first()));
        assert(pb.subrange(width, pb.len() as int) =~= tb.subrange(width, tb.len() as int).subrange(
            0,
            pb.len() - width,
        )) by {
            assert(forall|i: int|
                0 <= i < pb.len() - width ==> pb.subrange(width, pb.len() as int)[i] == pb[i
                    + width]);
        }
        lemma_prefix_of_encoding(p.drop_first(), t.drop_first());
        assert(p =~= t.subrange(0, p.len() as int)) by {
            assert(forall|i: int|
                1 <= i < p.len() ==> p[i] == p.drop_first()[i - 1] && p.drop_first()[i - 1]
                    == t.drop_first().subrange(0, p.len() - 1)[i - 1]);
        }
    }
}

/// Whether two strings hold the same text.
pub fn same_text(a: &str, b: &str) -> (r: bool)
    ensures
        r == (a@ == b@),
{
    let x = a.as_bytes();
    let y = b.as_bytes();
    if x.len() != y.len() {
        return false;
    }
    let mut i: usize = 0;
    while i < x.len()
        invariant
            i <= x@.len(),
            x@.len() == y@.len(),
            x@ == encode_utf8(a@),
            y@ == encode_utf8(b@),
            forall|j: int| 0 <= j < i ==> x@[j] == y@[j],
        decreases x@.len() - i,
    {
        if x[i] != y[i] {
            return false;
        }
        i = i + 1;
    }
    proof {
        assert(x@ =~= y@);
        lemma_encoding_is_injective(a@, b@);
    }
    true
}

} // verus!
