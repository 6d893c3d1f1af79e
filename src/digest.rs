//! Digest checks and the aggregate commitment over verified digests.

use vstd::prelude::*;
use vstd::utf8::{encode_utf8, encode_utf8_decode_utf8};

verus! {

/// The lowercase hexadecimal BLAKE3 digest of a byte stream.
pub uninterp spec fn blake3_hex_of(bytes: Seq<u8>) -> Seq<char>;

/// A character of lowercase hexadecimal.
pub open spec fn is_lower_hex_digit(c: char) -> bool {
    ('0' <= c && c <= '9') || ('a' <= c && c <= 'f')
}

/// Relies on blake3::hash and blake3::Hash::to_hex: the digest is a function of
/// the bytes alone, rendered as 64 lowercase hexadecimal digits.
#[verifier::external_body]
pub(crate) fn blake3_hex(bytes: &[u8]) -> (r: String)
    ensures
        r@ == blake3_hex_of(bytes@),
        r@.len() == 64,
        forall|i: int| 0 <= i < 64 ==> is_lower_hex_digit(#[trigger] r@[i]),
{
    blake3::hash(bytes).to_hex().to_string()
}

/// Whether the digest of a chunk's canonical payload bytes is exactly the
/// expected digest text.
pub open spec fn digest_matches(payload: Seq<u8>, expected: Seq<char>) -> bool {
    blake3_hex_of(payload) == expected
}

/// Checks a chunk's canonical payload bytes against its claimed digest.
pub fn verify_hash(payload: &[u8], expected_hash: &str) -> (r: bool)
    ensures
        r == digest_matches(payload@, expected_hash@),
{
    let computed = blake3_hex(payload);
    let expected = expected_hash.to_owned();
    computed == expected
}

/// The UTF-8 bytes of each digest, in sequence order, as one stream.
pub open spec fn joined_bytes(digests: Seq<String>) -> Seq<u8>
    decreases digests.len(),
{
    if digests.len() == 0 {
        Seq::empty()
    } else {
        joined_bytes(digests.drop_last()) + encode_utf8(digests.last()@)
    }
}

/// The aggregate commitment over an ordered list of verified digests.
pub open spec fn aggregate_of(digests: Seq<String>) -> Seq<char> {
    blake3_hex_of(joined_bytes(digests))
}

/// Feeds the raw bytes of each digest, in order, into one hash and renders it.
/// The empty list is legal and gives the digest of the empty stream.
pub fn aggregate_hash(verified: &Vec<String>) -> (r: String)
    ensures
        r@ == aggregate_of(verified@),
        r@.len() == 64,
{
    let mut bytes: Vec<u8> = Vec::new();
    let mut i: usize = 0;
    while i < verified.len()
        invariant
            i <= verified@.len(),
            bytes@ == joined_bytes(verified@.subrange(0, i as int)),
        decreases verified@.len() - i,
    {
        let piece = verified[i].as_str().as_bytes();
        bytes.extend_from_slice(piece);
        proof {
            let pre = verified@.subrange(0, i as int + 1);
            assert(pre.drop_last() =~= verified@.subrange(0, i as int));
        }
        assert(bytes@ =~= joined_bytes(verified@.subrange(0, i as int + 1)));
        i = i + 1;
    }
    assert(verified@.subrange(0, verified@.len() as int) =~= verified@);
    blake3_hex(bytes.as_slice())
}

/// Aggregation is order-sensitive: for two different digests of the same
/// byte length, aggregating `[h1, h2]` hashes a different byte stream than
/// aggregating `[h2, h1]`.
pub proof fn lemma_aggregate_input_order_sensitive(h1: String, h2: String)
    requires
        h1@ != h2@,
        encode_utf8(h1@).len() == encode_utf8(h2@).len(),
    ensures
        joined_bytes(seq![h1, h2]) != joined_bytes(seq![h2, h1]),
{
    let a = encode_utf8(h1@);
    let b = encode_utf8(h2@);
    assert(seq![h1, h2].drop_last() =~= seq![h1]);
    assert(seq![h2, h1].drop_last() =~= seq![h2]);
    assert(seq![h1].drop_last() =~= Seq::<String>::empty());
    assert(seq![h2].drop_last() =~= Seq::<String>::empty());
    assert(seq![h1].last() == h1);
    assert(seq![h2].last() == h2);
    assert(joined_bytes(Seq::<String>::empty()) =~= Seq::<u8>::empty());
    assert(joined_bytes(seq![h1]) =~= a);
    assert(joined_bytes(seq![h2]) =~= b);
    assert(seq![h1, h2].last() == h2);
    assert(seq![h2, h1].last() == h1);
    assert(joined_bytes(seq![h1, h2]) =~= a + b);
    assert(joined_bytes(seq![h2, h1]) =~= b + a);
    if a + b == b + a {
        assert((a + b).subrange(0, a.len() as int) =~= a);
        assert((b + a).subrange(0, a.len() as int) =~= b);
        encode_utf8_decode_utf8(h1@);
        encode_utf8_decode_utf8(h2@);
    }
}

/// Aggregating the empty list is well defined: it is the digest of the empty
/// byte stream.
pub proof fn lemma_aggregate_of_empty()
    ensures
        aggregate_of(Seq::<String>::empty()) == blake3_hex_of(Seq::<u8>::empty()),
{
}

} // verus!
