//! The verification pipeline: chunk checks, aggregation, attestation and
//! scoring, from a received task to its outcome.

use vstd::prelude::*;
use crate::digest::{aggregate_hash, aggregate_of, digest_matches, verify_hash};
use crate::policy::Status;

verus! {

/// One chunk of submitted data.
#[derive(Debug, Clone)]
pub struct DataChunk {
    /// Where the data came from.
    pub source: String,
    /// The payload in its canonical serialized form.
    pub data: Vec<u8>,
    /// The claimed lowercase hexadecimal digest of the payload.
    pub hash: String,
    /// Unix seconds.
    pub timestamp: u64,
}

/// A verification task as received.
#[derive(Debug, Clone)]
pub struct VerifyTask {
    pub task_type: String,
    pub quest_id: String,
    pub data: Vec<DataChunk>,
    pub expected_hashes: Vec<String>,
}

/// The attestation part of a completed verification.
#[derive(Debug, Clone)]
pub struct TeeAttestation {
    pub quote: String,
    /// The aggregate hash over the verified digests.
    pub data_hash: String,
    /// Unix seconds at completion.
    pub timestamp: u64,
    pub validator_pubkey: String,
    pub signature: String,
    /// Percentage of chunks that verified, 0 to 100.
    pub confidence_score: u8,
}

/// The outcome of a completed verification.
#[derive(Debug, Clone)]
pub struct VerificationResult {
    pub result_type: String,
    pub quest_id: String,
    pub agent_id: String,
    pub status: Status,
    pub attestation: TeeAttestation,
    pub verified_chunks: Vec<String>,
    pub failed_chunks: Vec<String>,
}

/// The digests of a task's chunks, split by whether their payload matched.
#[derive(Debug, Clone)]
pub struct ChunkCheck {
    pub verified_chunks: Vec<String>,
    pub failed_chunks: Vec<String>,
    pub aggregate_hash: String,
}

/// Whether a chunk's payload hashes to its claimed digest.
pub open spec fn chunk_verifies(c: DataChunk) -> bool {
    digest_matches(c.data@, c.hash@)
}

/// The claimed digests of the chunks that verify, in chunk order.
pub open spec fn verified_of(chunks: Seq<DataChunk>) -> Seq<String>
    decreases chunks.len(),
{
    if chunks.len() == 0 {
        Seq::empty()
    } else if chunk_verifies(chunks.last()) {
        verified_of(chunks.drop_last()).push(chunks.last().hash)
    } else {
        verified_of(chunks.drop_last())
    }
}

/// The claimed digests of the chunks that do not verify, in chunk order.
pub open spec fn failed_of(chunks: Seq<DataChunk>) -> Seq<String>
    decreases chunks.len(),
{
    if chunks.len() == 0 {
        Seq::empty()
    } else if !chunk_verifies(chunks.last()) {
        failed_of(chunks.drop_last()).push(chunks.last().hash)
    } else {
        failed_of(chunks.drop_last())
    }
}

/// The claimed digests of all chunks, in chunk order.
pub open spec fn digests_of(chunks: Seq<DataChunk>) -> Seq<String> {
    chunks.map_values(|c: DataChunk| c.hash)
}

/// `check` is the chunk check of `chunks`.
pub open spec fn is_check_of(chunks: Seq<DataChunk>, check: ChunkCheck) -> bool {
    &&& check.verified_chunks@ == verified_of(chunks)
    &&& check.failed_chunks@ == failed_of(chunks)
    &&& check.aggregate_hash@ == aggregate_of(verified_of(chunks))
}

/// Checks every chunk's digest and commits to the verified ones, in order.
pub fn check_chunks(chunks: &Vec<DataChunk>) -> (r: ChunkCheck)
    ensures
        is_check_of(chunks@, r),
{
    let mut verified_chunks: Vec<String> = Vec::new();
    let mut failed_chunks: Vec<String> = Vec::new();
    let mut i: usize = 0;
    while i < chunks.len()
        invariant
            i <= chunks@.len(),
            verified_chunks@ == verified_of(chunks@.subrange(0, i as int)),
            failed_chunks@ == failed_of(chunks@.subrange(0, i as int)),
        decreases chunks@.len() - i,
    {
        let chunk = &chunks[i];
        proof {
            let pre = chunks@.subrange(0, i as int + 1);
            assert(pre.drop_last() =~= chunks@.subrange(0, i as int));
            assert(pre.last() == *chunk);
        }
        if verify_hash(chunk.data.as_slice(), chunk.hash.as_str()) {
            verified_chunks.push(chunk.hash.clone());
        } else {
            failed_chunks.push(chunk.hash.clone());
        }
        i = i + 1;
    }
    assert(chunks@.subrange(0, chunks@.len() as int) =~= chunks@);
    let aggregate_hash = aggregate_hash(&verified_chunks);
    ChunkCheck { verified_chunks, failed_chunks, aggregate_hash }
}

/// Every chunk's digest lands in exactly one of the two lists: their lengths
/// add up to the number of chunks, together they hold exactly the input
/// digests, and where the input digests are distinct no digest is in both.
pub proof fn lemma_check_partitions(chunks: Seq<DataChunk>)
    ensures
        verified_of(chunks).len() + failed_of(chunks).len() == chunks.len(),
        verified_of(chunks).to_multiset().add(failed_of(chunks).to_multiset())
            == digests_of(chunks).to_multiset(),
        digests_of(chunks).no_duplicates() ==> forall|d: String|
            !(#[trigger] verified_of(chunks).contains(d) && failed_of(chunks).contains(d)),
    decreases chunks.len(),
{
    broadcast use vstd::seq_lib::group_to_multiset_ensures;
    broadcast use vstd::multiset::group_multiset_axioms;

    if chunks.len() > 0 {
        let rest = chunks.drop_last();
        lemma_check_partitions(rest);
        assert(digests_of(chunks) =~= digests_of(rest).push(chunks.last().hash));
    } else {
        assert(digests_of(chunks) =~= Seq::<String>::empty());
    }
    assert(verified_of(chunks).to_multiset().add(failed_of(chunks).to_multiset())
        =~= digests_of(chunks).to_multiset());
    if digests_of(chunks).no_duplicates() {
        digests_of(chunks).lemma_multiset_has_no_duplicates();
        assert forall|d: String|
            !(#[trigger] verified_of(chunks).contains(d) && failed_of(chunks).contains(d)) by {
            if verified_of(chunks).contains(d) && failed_of(chunks).contains(d) {
                assert(verified_of(chunks).to_multiset().count(d) > 0);
                assert(failed_of(chunks).to_multiset().count(d) > 0);
                assert(digests_of(chunks).to_multiset().count(d) >= 2);
            }
        }
    }
}

} // verus!
