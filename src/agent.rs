//! The verifier agent: message dispatch over the channel and the steps of
//! one verification run.

use vstd::prelude::*;
use crate::attestation::{
    error_text, is_dev_attestation, is_request_for, AttestationCall, AttestationError,
    AttestationRequest, AttestationResponse, EigenCompute,
};
use crate::digest::aggregate_of;
use crate::pipeline::{
    check_chunks, failed_of, is_check_of, verified_of, ChunkCheck, TeeAttestation,
    VerificationResult, VerifyTask,
};
use crate::policy::{confidence, score_of, status_of};

verus! {

/// The agent's identity and configuration, fixed at startup.
#[derive(Debug, Clone)]
pub struct VerifierAgent {
    pub agent_id: String,
    pub coordinator_url: String,
    pub eigen_compute: EigenCompute,
}

/// An inbound message, decoded: its type tag, if it has one, and the
/// verification task it carries, if it decodes as one.
#[derive(Debug, Clone)]
pub struct Inbound {
    pub type_tag: Option<String>,
    pub task: Option<VerifyTask>,
}

/// A message the agent sends.
#[derive(Debug, Clone)]
pub enum Outbound {
    Register { agent_id: String, capabilities: Vec<String> },
    TaskResult(VerificationResult),
    TaskFailed { quest_id: String, agent_id: String, error: String },
    Pong { agent_id: String },
}

/// A verification run that waits for the external attestation endpoint.
#[derive(Debug, Clone)]
pub struct PendingTask {
    pub task: VerifyTask,
    pub check: ChunkCheck,
    pub request: AttestationRequest,
}

/// What to do with one inbound message.
#[derive(Debug, Clone)]
pub enum Reaction {
    Reply(Outbound),
    /// Send the request, then hand its reply to `resume`.
    Await(PendingTask),
    Ignore,
}

/// What arrives on the channel.
#[derive(Debug, Clone)]
pub enum ChannelEvent {
    Text(Inbound),
    Close,
    TransportError(String),
    Other,
}

/// What the session does next.
#[derive(Debug, Clone)]
pub enum SessionStep {
    Continue(Reaction),
    Stop,
}

/// The diagnostic of a task that carries no chunks.
pub open spec fn no_chunks_text() -> Seq<char> {
    "task carries no data chunks"@
}

impl PendingTask {
    /// The check and the request belong to the task.
    pub open spec fn wf(&self) -> bool {
        &&& self.task.data@.len() > 0
        &&& is_check_of(self.task.data@, self.check)
        &&& is_request_for(
            self.check.aggregate_hash@,
            self.check.verified_chunks@,
            self.task.quest_id@,
            self.request.timestamp,
            self.request,
        )
    }
}

impl VerifierAgent {
    /// `r` is the completed outcome of `task` with attestation `a` at `timestamp`.
    pub open spec fn is_result_of(
        &self,
        task: VerifyTask,
        a: AttestationResponse,
        timestamp: u64,
        r: VerificationResult,
    ) -> bool {
        let verified = verified_of(task.data@);
        let score = score_of(verified.len(), task.data@.len());
        &&& r.result_type@ == "task_result"@
        &&& r.quest_id@ == task.quest_id@
        &&& r.agent_id@ == self.agent_id@
        &&& r.status == status_of(score, task.data@.len())
        &&& r.verified_chunks@ == verified
        &&& r.failed_chunks@ == failed_of(task.data@)
        &&& r.attestation.quote == a.quote
        &&& r.attestation.data_hash@ == aggregate_of(verified)
        &&& r.attestation.timestamp == timestamp
        &&& r.attestation.validator_pubkey == a.validator_pubkey
        &&& r.attestation.signature == a.signature
        &&& r.attestation.confidence_score as nat == score
    }

    /// `o` reports the run of `task` given the provider's `reply`.
    pub open spec fn is_outcome_of(
        &self,
        task: VerifyTask,
        reply: Result<AttestationResponse, AttestationError>,
        timestamp: u64,
        o: Outbound,
    ) -> bool {
        match reply {
            Ok(a) => o matches Outbound::TaskResult(r) && self.is_result_of(task, a, timestamp, r),
            Err(e) => o matches Outbound::TaskFailed { quest_id, agent_id, error } && quest_id@
                == task.quest_id@ && agent_id@ == self.agent_id@ && error@ == error_text(e),
        }
    }

    /// `r` is the session's step on `event` at time `now`.
    pub open spec fn is_step_for(&self, event: ChannelEvent, now: u64, r: SessionStep) -> bool {
        match event {
            ChannelEvent::Text(m) => r matches SessionStep::Continue(x) && self.is_reaction_to(
                m,
                now,
                x,
            ),
            ChannelEvent::Close => r is Stop,
            ChannelEvent::TransportError(_) => r is Stop,
            ChannelEvent::Other => r matches SessionStep::Continue(x) && x is Ignore,
        }
    }

    /// `r` starts a run of `task` at time `now`.
    pub open spec fn is_start_of(&self, task: VerifyTask, now: u64, r: Reaction) -> bool {
        &&& task.data@.len() == 0 ==> (r matches Reaction::Reply(
            Outbound::TaskFailed { quest_id, agent_id, error },
        ) && quest_id@ == task.quest_id@ && agent_id@ == self.agent_id@ && error@
            == no_chunks_text())
        &&& task.data@.len() > 0 && self.eigen_compute.dev_mode ==> (r matches Reaction::Reply(o)
            && exists|a: AttestationResponse|
            #![auto]
            is_dev_attestation(aggregate_of(verified_of(task.data@)), task.quest_id@, a)
                && self.is_outcome_of(task, Ok(a), now, o))
        &&& task.data@.len() > 0 && !self.eigen_compute.dev_mode ==> (r matches Reaction::Await(p)
            && p.wf() && p.task == task && p.request.timestamp == now)
    }

    /// `r` is the reaction to an inbound message at time `now`: a `ping`
    /// gets a `pong` with the agent id, a decodable `verify_task` starts a
    /// run, and anything else, a message without a type included, is dropped.
    pub open spec fn is_reaction_to(&self, message: Inbound, now: u64, r: Reaction) -> bool {
        match message.type_tag {
            None => r is Ignore,
            Some(tag) => if tag@ == "ping"@ {
                r matches Reaction::Reply(Outbound::Pong { agent_id }) && agent_id@
                    == self.agent_id@
            } else if tag@ == "verify_task"@ {
                match message.task {
                    Some(t) => self.is_start_of(t, now, r),
                    None => r is Ignore,
                }
            } else {
                r is Ignore
            },
        }
    }

    /// An agent with the given identity, coordinator address and provider.
    pub fn new(agent_id: String, coordinator_url: String, eigen_compute: EigenCompute) -> (r:
        Self)
        ensures
            r.agent_id == agent_id,
            r.coordinator_url == coordinator_url,
            r.eigen_compute == eigen_compute,
    {
        VerifierAgent { agent_id, coordinator_url, eigen_compute }
    }

    /// Completes a run of `task`, whose chunk check is `check`, from the
    /// provider's reply: a scored result, or the provider's diagnostic.
    pub fn verify_in_tee(
        &self,
        task: &VerifyTask,
        check: ChunkCheck,
        attestation: Result<AttestationResponse, AttestationError>,
        timestamp: u64,
    ) -> (r: Result<VerificationResult, String>)
        requires
            task.data@.len() > 0,
            is_check_of(task.data@, check),
        ensures
            match attestation {
                Ok(a) => r matches Ok(res) && self.is_result_of(*task, a, timestamp, res),
                Err(e) => r matches Err(m) && m@ == error_text(e),
            },
    {
        let attestation = match attestation {
            Ok(a) => a,
            Err(e) => {
                return Err(e.message());
            },
        };
        let (score, status) = confidence(check.verified_chunks.len(), task.data.len());
        Ok(
            VerificationResult {
                result_type: String::from_str("task_result"),
                quest_id: task.quest_id.clone(),
                agent_id: self.agent_id.clone(),
                status,
                attestation: TeeAttestation {
                    quote: attestation.quote,
                    data_hash: check.aggregate_hash,
                    timestamp,
                    validator_pubkey: attestation.validator_pubkey,
                    signature: attestation.signature,
                    confidence_score: score,
                },
                verified_chunks: check.verified_chunks,
                failed_chunks: check.failed_chunks,
            },
        )
    }

    /// The message that reports a run's outcome.
    fn conclude(
        &self,
        task: &VerifyTask,
        check: ChunkCheck,
        attestation: Result<AttestationResponse, AttestationError>,
        timestamp: u64,
    ) -> (r: Outbound)
        requires
            task.data@.len() > 0,
            is_check_of(task.data@, check),
        ensures
            self.is_outcome_of(*task, attestation, timestamp, r),
    {
        match self.verify_in_tee(task, check, attestation, timestamp) {
            Ok(result) => Outbound::TaskResult(result),
            Err(error) => Outbound::TaskFailed {
                quest_id: task.quest_id.clone(),
                agent_id: self.agent_id.clone(),
                error,
            },
        }
    }

    /// Starts a run of `task` at time `now`: a task without chunks fails at
    /// once; a simulated attestation completes the run; otherwise the run
    /// waits for the external endpoint.
    pub fn start_verification(&self, task: VerifyTask, now: u64) -> (r: Reaction)
        ensures
            self.is_start_of(task, now, r),
    {
        if task.data.len() == 0 {
            return Reaction::Reply(
                Outbound::TaskFailed {
                    quest_id: task.quest_id.clone(),
                    agent_id: self.agent_id.clone(),
                    error: String::from_str("task carries no data chunks"),
                },
            );
        }
        let check = check_chunks(&task.data);
        let call = self.eigen_compute.execute_verification(
            check.aggregate_hash.as_str(),
            &check.verified_chunks,
            task.quest_id.as_str(),
            now,
        );
        match call {
            AttestationCall::Ready(a) => Reaction::Reply(self.conclude(&task, check, Ok(a), now)),
            AttestationCall::Send(request) => Reaction::Await(PendingTask { task, check, request }),
        }
    }

    /// Finishes a run that waited for the external endpoint, given its reply.
    pub fn resume(
        &self,
        pending: PendingTask,
        reply: Result<AttestationResponse, AttestationError>,
        now: u64,
    ) -> (r: Outbound)
        requires
            pending.wf(),
        ensures
            self.is_outcome_of(pending.task, reply, now, r),
    {
        let PendingTask { task, check, request: _ } = pending;
        self.conclude(&task, check, reply, now)
    }
}

impl VerifierAgent {
    /// Dispatches one inbound message by its type tag.
    pub fn handle_task(&self, message: Inbound, now: u64) -> (r: Reaction)
        ensures
            self.is_reaction_to(message, now, r),
    {
        let ghost m = message;
        let Inbound { type_tag, task } = message;
        let tag = match type_tag {
            Some(tag) => tag,
            None => {
                return Reaction::Ignore;
            },
        };
        if tag == String::from_str("ping") {
            return Reaction::Reply(Outbound::Pong { agent_id: self.agent_id.clone() });
        }
        if tag == String::from_str("verify_task") {
            match task {
                Some(t) => self.start_verification(t, now),
                None => Reaction::Ignore,
            }
        } else {
            Reaction::Ignore
        }
    }

    /// One step of the session: a text message is dispatched and the session
    /// goes on; a close or a transport error ends it; anything else is
    /// passed over.
    pub fn on_event(&self, event: ChannelEvent, now: u64) -> (r: SessionStep)
        ensures
            self.is_step_for(event, now, r),
    {
        match event {
            ChannelEvent::Text(m) => SessionStep::Continue(self.handle_task(m, now)),
            ChannelEvent::Close => SessionStep::Stop,
            ChannelEvent::TransportError(_) => SessionStep::Stop,
            ChannelEvent::Other => SessionStep::Continue(Reaction::Ignore),
        }
    }

    /// The announcement sent once the channel is open.
    pub fn registration(&self) -> (r: Outbound)
        ensures
            r matches Outbound::Register { agent_id, capabilities } && agent_id@ == self.agent_id@
                && capabilities@.len() == 3 && capabilities@[0]@ == "tee_attestation"@
                && capabilities@[1]@ == "hash_verification"@ && capabilities@[2]@
                == "data_integrity"@,
    {
        let capabilities = vec![
            String::from_str("tee_attestation"),
            String::from_str("hash_verification"),
            String::from_str("data_integrity"),
        ];
        Outbound::Register { agent_id: self.agent_id.clone(), capabilities }
    }
}

/// A `ping` always gets a `pong` carrying the agent id, whatever else the
/// message holds, and the session goes on.
pub proof fn lemma_ping_yields_pong(
    agent: VerifierAgent,
    message: Inbound,
    now: u64,
    step: SessionStep,
)
    requires
        message.type_tag matches Some(tag) && tag@ == "ping"@,
        agent.is_step_for(ChannelEvent::Text(message), now, step),
    ensures
        step matches SessionStep::Continue(Reaction::Reply(Outbound::Pong { agent_id }))
            && agent_id@ == agent.agent_id@,
{
}

/// A message without a type tag gets no reply, and the session stays open
/// for the messages that follow.
pub proof fn lemma_untyped_message_dropped(
    agent: VerifierAgent,
    message: Inbound,
    now: u64,
    step: SessionStep,
)
    requires
        message.type_tag is None,
        agent.is_step_for(ChannelEvent::Text(message), now, step),
    ensures
        step matches SessionStep::Continue(x) && x is Ignore,
{
}

} // verus!
