//! The attestation provider: a deterministic local simulation, or a request
//! handed to an external attested-compute endpoint.

use vstd::prelude::*;
use vstd::utf8::encode_utf8;
use crate::digest::{blake3_hex, blake3_hex_of};

verus! {

/// An attestation as the provider reports it.
#[derive(Debug, Clone)]
pub struct AttestationResponse {
    pub quote: String,
    pub validator_pubkey: String,
    pub signature: String,
    pub success: bool,
    pub error: Option<String>,
}

/// What an external deployment reports of itself.
#[derive(Debug, Clone)]
pub struct DeploymentStatus {
    pub id: String,
    pub status: String,
    pub address: Option<String>,
    pub logs: Option<String>,
}

/// The attestation provider's configuration, fixed at startup.
#[derive(Debug, Clone)]
pub struct EigenCompute {
    /// The attested-compute environment, "testnet" or "mainnet".
    pub environment: String,
    /// When set, attestations are simulated locally.
    pub dev_mode: bool,
}

/// The structured request sent to the external attestation endpoint.
#[derive(Debug, Clone)]
pub struct AttestationRequest {
    pub operation: String,
    pub data_hash: String,
    pub verified_hashes: Vec<String>,
    pub quest_id: String,
    pub timestamp: u64,
    pub tee_type: String,
}

/// What the provider does for one attestation: either the attestation is
/// already at hand, or a request must be sent and its reply read.
#[derive(Debug, Clone)]
pub enum AttestationCall {
    Ready(AttestationResponse),
    Send(AttestationRequest),
}

/// Why the external endpoint gave no attestation; each carries the
/// provider's diagnostic text.
#[derive(Debug, Clone, PartialEq, Eq)]
pub enum AttestationError {
    /// The request could not be delivered or its reply not received.
    Transport(String),
    /// The endpoint answered with a non-success status; carries its body.
    Rejected(String),
    /// The reply could not be read as an attestation.
    Unreadable(String),
}

/// The domain-separation tag mixed into simulated attestations.
pub open spec fn dev_tag() -> Seq<char> {
    "eigencloud_dev_attestation"@
}

/// The keyed digest behind a simulated attestation.
pub open spec fn dev_digest(data_hash: Seq<char>, quest_id: Seq<char>) -> Seq<char> {
    blake3_hex_of(encode_utf8(data_hash) + encode_utf8(quest_id) + encode_utf8(dev_tag()))
}

/// `r` is the simulated attestation for this aggregate hash and quest id.
pub open spec fn is_dev_attestation(
    data_hash: Seq<char>,
    quest_id: Seq<char>,
    r: AttestationResponse,
) -> bool {
    let d = dev_digest(data_hash, quest_id);
    &&& r.quote@ == "DEV_TDX_QUOTE_"@ + d
    &&& r.validator_pubkey@ == "DEV_PUBKEY_"@ + d.subrange(0, 16)
    &&& r.signature@ == "DEV_SIG_"@ + d.subrange(16, 48)
    &&& r.success
    &&& r.error is None
}

/// `req` is the request for an attestation of these digests.
pub open spec fn is_request_for(
    data_hash: Seq<char>,
    verified_hashes: Seq<String>,
    quest_id: Seq<char>,
    timestamp: u64,
    req: AttestationRequest,
) -> bool {
    &&& req.operation@ == "verify_data_integrity"@
    &&& req.data_hash@ == data_hash
    &&& req.verified_hashes@ == verified_hashes
    &&& req.quest_id@ == quest_id
    &&& req.timestamp == timestamp
    &&& req.tee_type@ == "TDX"@
}

/// The diagnostic text of an attestation failure.
pub open spec fn error_text(e: AttestationError) -> Seq<char> {
    match e {
        AttestationError::Transport(m) => "TEE container error: "@ + m@,
        AttestationError::Rejected(m) => "TEE verification failed: "@ + m@,
        AttestationError::Unreadable(m) => "Failed to parse attestation: "@ + m@,
    }
}

/// Copies a list of digests.
fn copy_digests(v: &Vec<String>) -> (r: Vec<String>)
    ensures
        r@ == v@,
{
    let mut r: Vec<String> = Vec::new();
    let mut i: usize = 0;
    while i < v.len()
        invariant
            i <= v@.len(),
            r@ == v@.subrange(0, i as int),
        decreases v@.len() - i,
    {
        r.push(v[i].clone());
        assert(r@ =~= v@.subrange(0, i as int + 1));
        i = i + 1;
    }
    assert(v@.subrange(0, v@.len() as int) =~= v@);
    r
}

impl AttestationError {
    /// The diagnostic text, prefixed by the kind of failure.
    pub fn message(&self) -> (r: String)
        ensures
            r@ == error_text(*self),
    {
        let (prefix, detail) = match self {
            AttestationError::Transport(m) => ("TEE container error: ", m),
            AttestationError::Rejected(m) => ("TEE verification failed: ", m),
            AttestationError::Unreadable(m) => ("Failed to parse attestation: ", m),
        };
        let mut r = String::from_str(prefix);
        r.append(detail.as_str());
        r
    }
}

impl EigenCompute {
    /// A provider for the given environment; `dev_mode` selects simulation.
    pub fn new(environment: String, dev_mode: bool) -> (r: Self)
        ensures
            r.environment == environment,
            r.dev_mode == dev_mode,
    {
        EigenCompute { environment, dev_mode }
    }

    /// Starts an attestation of `data_hash` over `verified_hashes` for a quest:
    /// simulated at once in development mode, otherwise a request to send.
    pub fn execute_verification(
        &self,
        data_hash: &str,
        verified_hashes: &Vec<String>,
        quest_id: &str,
        timestamp: u64,
    ) -> (r: AttestationCall)
        ensures
            self.dev_mode ==> (r matches AttestationCall::Ready(a) && is_dev_attestation(
                data_hash@,
                quest_id@,
                a,
            )),
            !self.dev_mode ==> (r matches AttestationCall::Send(req) && is_request_for(
                data_hash@,
                verified_hashes@,
                quest_id@,
                timestamp,
                req,
            )),
    {
        if self.dev_mode {
            return AttestationCall::Ready(self.generate_dev_attestation(data_hash, quest_id));
        }
        AttestationCall::Send(
            AttestationRequest {
                operation: String::from_str("verify_data_integrity"),
                data_hash: data_hash.to_owned(),
                verified_hashes: copy_digests(verified_hashes),
                quest_id: quest_id.to_owned(),
                timestamp,
                tee_type: String::from_str("TDX"),
            },
        )
    }

    /// The simulated attestation: a keyed digest over the aggregate hash, the
    /// quest id and a fixed tag, with markers that flag it as non-production.
    pub fn generate_dev_attestation(&self, data_hash: &str, quest_id: &str) -> (r:
        AttestationResponse)
        ensures
            is_dev_attestation(data_hash@, quest_id@, r),
    {
        let mut bytes: Vec<u8> = Vec::new();
        bytes.extend_from_slice(data_hash.as_bytes());
        bytes.extend_from_slice(quest_id.as_bytes());
        bytes.extend_from_slice("eigencloud_dev_attestation".as_bytes());
        assert(bytes@ =~= encode_utf8(data_hash@) + encode_utf8(quest_id@) + encode_utf8(
            dev_tag(),
        ));
        let digest = blake3_hex(bytes.as_slice());
        let mut quote = String::from_str("DEV_TDX_QUOTE_");
        quote.append(digest.as_str());
        let mut validator_pubkey = String::from_str("DEV_PUBKEY_");
        validator_pubkey.append(digest.as_str().substring_char(0, 16));
        let mut signature = String::from_str("DEV_SIG_");
        signature.append(digest.as_str().substring_char(16, 48));
        AttestationResponse { quote, validator_pubkey, signature, success: true, error: None }
    }
}

/// The simulated attestation is a pure function of the aggregate hash and the
/// quest id: any two simulated attestations of the same inputs carry the same
/// quote, signer key and signature, and both report success.
pub proof fn lemma_dev_attestation_pure(
    data_hash: Seq<char>,
    quest_id: Seq<char>,
    r1: AttestationResponse,
    r2: AttestationResponse,
)
    requires
        is_dev_attestation(data_hash, quest_id, r1),
        is_dev_attestation(data_hash, quest_id, r2),
    ensures
        r1.quote@ == r2.quote@,
        r1.validator_pubkey@ == r2.validator_pubkey@,
        r1.signature@ == r2.signature@,
        r1.success && r2.success,
{
}

} // verus!
