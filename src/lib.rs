//! A verifier agent: re-derives BLAKE3 digests of submitted data chunks,
//! folds the matching ones into an aggregate commitment, obtains an
//! attestation for that commitment and reports a scored verdict.

pub mod agent;
pub mod attestation;
pub mod digest;
pub mod pipeline;
pub mod policy;

pub use agent::{ChannelEvent, Inbound, Outbound, PendingTask, Reaction, SessionStep, VerifierAgent};
pub use attestation::{
    AttestationCall, AttestationError, AttestationRequest, AttestationResponse, DeploymentStatus,
    EigenCompute,
};
pub use digest::{aggregate_hash, verify_hash};
pub use pipeline::{check_chunks, ChunkCheck, DataChunk, TeeAttestation, VerificationResult, VerifyTask};
pub use policy::{confidence, Status};
