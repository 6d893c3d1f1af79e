use tee_verifier::{
    aggregate_hash, check_chunks, confidence, verify_hash, AttestationCall, AttestationError,
    AttestationResponse, ChannelEvent, DataChunk, EigenCompute, Inbound, Outbound, Reaction,
    SessionStep, Status, VerifierAgent, VerifyTask,
};

fn hex(bytes: &[u8]) -> String {
    blake3::hash(bytes).to_hex().to_string()
}

fn chunk(payload: &str, hash: String) -> DataChunk {
    DataChunk {
        source: "feed".to_string(),
        data: payload.as_bytes().to_vec(),
        hash,
        timestamp: 1_700_000_000,
    }
}

fn good_chunk(payload: &str) -> DataChunk {
    chunk(payload, hex(payload.as_bytes()))
}

fn task(quest: &str, chunks: Vec<DataChunk>) -> VerifyTask {
    let expected_hashes = chunks.iter().map(|c| c.hash.clone()).collect();
    VerifyTask {
        task_type: "verify_task".to_string(),
        quest_id: quest.to_string(),
        data: chunks,
        expected_hashes,
    }
}

fn agent(dev_mode: bool) -> VerifierAgent {
    VerifierAgent::new(
        "verifier-001".to_string(),
        "ws://localhost:8080".to_string(),
        EigenCompute::new("testnet".to_string(), dev_mode),
    )
}

fn message(tag: Option<&str>, t: Option<VerifyTask>) -> Inbound {
    Inbound { type_tag: tag.map(|s| s.to_string()), task: t }
}

fn dev_expected(data_hash: &str, quest: &str) -> (String, String, String) {
    let mut bytes = data_hash.as_bytes().to_vec();
    bytes.extend_from_slice(quest.as_bytes());
    bytes.extend_from_slice(b"eigencloud_dev_attestation");
    let d = hex(&bytes);
    (
        format!("DEV_TDX_QUOTE_{}", d),
        format!("DEV_PUBKEY_{}", &d[..16]),
        format!("DEV_SIG_{}", &d[16..48]),
    )
}

#[test]
fn verify_hash_accepts_matching_digest() {
    let payload = br#"{"price":42}"#;
    assert!(verify_hash(payload, &hex(payload)));
}

#[test]
fn verify_hash_rejects_other_digest() {
    let payload = br#"{"price":42}"#;
    assert!(!verify_hash(payload, &hex(b"{\"price\":43}")));
    assert!(!verify_hash(payload, &hex(payload).to_uppercase()));
    assert!(!verify_hash(payload, ""));
}

#[test]
fn aggregate_feeds_raw_digest_bytes_in_order() {
    let h1 = hex(b"one");
    let h2 = hex(b"two");
    let joined = format!("{}{}", h1, h2);
    assert_eq!(aggregate_hash(&vec![h1.clone(), h2.clone()]), hex(joined.as_bytes()));
    assert_ne!(aggregate_hash(&vec![h1.clone(), h2.clone()]), h1);
}

#[test]
fn aggregate_is_order_sensitive() {
    let h1 = hex(b"one");
    let h2 = hex(b"two");
    assert_ne!(
        aggregate_hash(&vec![h1.clone(), h2.clone()]),
        aggregate_hash(&vec![h2, h1])
    );
}

#[test]
fn aggregate_of_empty_is_digest_of_empty_stream() {
    let a = aggregate_hash(&Vec::new());
    assert_eq!(a, hex(b""));
    assert_eq!(a, aggregate_hash(&Vec::new()));
    assert_eq!(a.len(), 64);
}

#[test]
fn confidence_exact_values() {
    assert_eq!(confidence(2, 2), (100, Status::Verified));
    assert_eq!(confidence(3, 4), (75, Status::Partial));
    assert_eq!(confidence(19, 20), (95, Status::Verified));
    assert_eq!(confidence(18, 20), (90, Status::Partial));
    assert_eq!(confidence(1, 3), (33, Status::Partial));
    assert_eq!(confidence(2, 3), (66, Status::Partial));
    assert_eq!(confidence(0, 5), (0, Status::Partial));
    assert_eq!(confidence(99, 100), (99, Status::Verified));
}

#[test]
fn confidence_without_chunks_is_error() {
    assert_eq!(confidence(0, 0), (0, Status::Error));
}

#[test]
fn confidence_is_monotonic_and_full_only_when_all_verify() {
    let total = 37usize;
    let mut last = 0u8;
    for v in 0..=total {
        let (score, status) = confidence(v, total);
        assert!(score >= last);
        assert_eq!(score == 100, v == total);
        assert_eq!(status == Status::Verified, score >= 95);
        last = score;
    }
}

#[test]
fn confidence_handles_largest_counts() {
    assert_eq!(confidence(usize::MAX - 1, usize::MAX), (99, Status::Verified));
    assert_eq!(confidence(usize::MAX, usize::MAX), (100, Status::Verified));
}

#[test]
fn status_labels() {
    assert_eq!(Status::Verified.as_str(), "verified");
    assert_eq!(Status::Partial.as_str(), "partial");
    assert_eq!(Status::Error.as_str(), "error");
}

#[test]
fn dev_attestation_exact_and_deterministic() {
    let provider = EigenCompute::new("testnet".to_string(), true);
    let data_hash = hex(b"aggregate");
    let a = provider.generate_dev_attestation(&data_hash, "quest-7");
    let b = provider.generate_dev_attestation(&data_hash, "quest-7");
    let (quote, key, sig) = dev_expected(&data_hash, "quest-7");
    assert_eq!(a.quote, quote);
    assert_eq!(a.validator_pubkey, key);
    assert_eq!(a.signature, sig);
    assert!(a.success);
    assert!(a.error.is_none());
    assert_eq!(a.quote, b.quote);
    assert_eq!(a.validator_pubkey, b.validator_pubkey);
    assert_eq!(a.signature, b.signature);
    let other = provider.generate_dev_attestation(&data_hash, "quest-8");
    assert_ne!(a.quote, other.quote);
}

#[test]
fn execute_verification_delegated_builds_request() {
    let provider = EigenCompute::new("mainnet".to_string(), false);
    let hashes = vec![hex(b"a"), hex(b"b")];
    match provider.execute_verification("agg", &hashes, "quest-1", 1234) {
        AttestationCall::Send(req) => {
            assert_eq!(req.operation, "verify_data_integrity");
            assert_eq!(req.data_hash, "agg");
            assert_eq!(req.verified_hashes, hashes);
            assert_eq!(req.quest_id, "quest-1");
            assert_eq!(req.timestamp, 1234);
            assert_eq!(req.tee_type, "TDX");
        }
        AttestationCall::Ready(_) => panic!("expected a request"),
    }
}

#[test]
fn execute_verification_dev_is_ready() {
    let provider = EigenCompute::new("testnet".to_string(), true);
    match provider.execute_verification("agg", &Vec::new(), "quest-1", 1234) {
        AttestationCall::Ready(a) => {
            let (quote, _, _) = dev_expected("agg", "quest-1");
            assert_eq!(a.quote, quote);
        }
        AttestationCall::Send(_) => panic!("expected a simulated attestation"),
    }
}

#[test]
fn attestation_error_messages() {
    assert_eq!(
        AttestationError::Transport("refused".to_string()).message(),
        "TEE container error: refused"
    );
    assert_eq!(
        AttestationError::Rejected("bad".to_string()).message(),
        "TEE verification failed: bad"
    );
    assert_eq!(
        AttestationError::Unreadable("eof".to_string()).message(),
        "Failed to parse attestation: eof"
    );
}

#[test]
fn check_chunks_partitions_in_order() {
    let chunks = vec![
        good_chunk("a"),
        chunk("b", hex(b"x")),
        good_chunk("c"),
        chunk("d", "zz".to_string()),
    ];
    let check = check_chunks(&chunks);
    assert_eq!(check.verified_chunks, vec![hex(b"a"), hex(b"c")]);
    assert_eq!(check.failed_chunks, vec![hex(b"x"), "zz".to_string()]);
    assert_eq!(check.verified_chunks.len() + check.failed_chunks.len(), chunks.len());
    assert_eq!(check.aggregate_hash, aggregate_hash(&check.verified_chunks));
}

#[test]
fn scenario_two_matching_chunks_verified() {
    let agent = agent(true);
    let t = task("quest-a", vec![good_chunk("{\"a\":1}"), good_chunk("{\"b\":2}")]);
    let expected = vec![t.data[0].hash.clone(), t.data[1].hash.clone()];
    match agent.handle_task(message(Some("verify_task"), Some(t)), 99) {
        Reaction::Reply(Outbound::TaskResult(r)) => {
            assert_eq!(r.result_type, "task_result");
            assert_eq!(r.quest_id, "quest-a");
            assert_eq!(r.agent_id, "verifier-001");
            assert_eq!(r.status, Status::Verified);
            assert_eq!(r.attestation.confidence_score, 100);
            assert_eq!(r.verified_chunks, expected);
            assert!(r.failed_chunks.is_empty());
            let agg = aggregate_hash(&expected);
            assert_eq!(r.attestation.data_hash, agg);
            assert_eq!(r.attestation.timestamp, 99);
            let (quote, key, sig) = dev_expected(&agg, "quest-a");
            assert_eq!(r.attestation.quote, quote);
            assert_eq!(r.attestation.validator_pubkey, key);
            assert_eq!(r.attestation.signature, sig);
        }
        other => panic!("unexpected reaction {:?}", other),
    }
}

#[test]
fn scenario_one_of_four_mismatching_partial() {
    let agent = agent(true);
    let bad = hex(b"tampered");
    let t = task(
        "quest-b",
        vec![good_chunk("1"), good_chunk("2"), chunk("3", bad.clone()), good_chunk("4")],
    );
    match agent.handle_task(message(Some("verify_task"), Some(t)), 5) {
        Reaction::Reply(Outbound::TaskResult(r)) => {
            assert_eq!(r.attestation.confidence_score, 75);
            assert_eq!(r.status, Status::Partial);
            assert_eq!(r.failed_chunks, vec![bad.clone()]);
            assert!(!r.verified_chunks.contains(&bad));
            assert_eq!(r.verified_chunks, vec![hex(b"1"), hex(b"2"), hex(b"4")]);
        }
        other => panic!("unexpected reaction {:?}", other),
    }
}

#[test]
fn scenario_delegated_transport_error() {
    let agent = agent(false);
    let t = task("quest-c", vec![good_chunk("x")]);
    let pending = match agent.handle_task(message(Some("verify_task"), Some(t)), 7) {
        Reaction::Await(p) => p,
        other => panic!("unexpected reaction {:?}", other),
    };
    assert_eq!(pending.request.quest_id, "quest-c");
    assert_eq!(pending.request.timestamp, 7);
    assert_eq!(pending.request.verified_hashes, vec![hex(b"x")]);
    let out = agent.resume(
        pending,
        Err(AttestationError::Transport("connection refused".to_string())),
        8,
    );
    match out {
        Outbound::TaskFailed { quest_id, agent_id, error } => {
            assert_eq!(quest_id, "quest-c");
            assert_eq!(agent_id, "verifier-001");
            assert_eq!(error, "TEE container error: connection refused");
        }
        other => panic!("unexpected outbound {:?}", other),
    }
}

#[test]
fn delegated_reply_completes_run() {
    let agent = agent(false);
    let t = task("quest-d", vec![good_chunk("x"), chunk("y", "0".repeat(64))]);
    let pending = match agent.handle_task(message(Some("verify_task"), Some(t)), 7) {
        Reaction::Await(p) => p,
        other => panic!("unexpected reaction {:?}", other),
    };
    let reply = AttestationResponse {
        quote: "Q".to_string(),
        validator_pubkey: "K".to_string(),
        signature: "S".to_string(),
        success: true,
        error: None,
    };
    match agent.resume(pending, Ok(reply), 9) {
        Outbound::TaskResult(r) => {
            assert_eq!(r.status, Status::Partial);
            assert_eq!(r.attestation.confidence_score, 50);
            assert_eq!(r.attestation.quote, "Q");
            assert_eq!(r.attestation.validator_pubkey, "K");
            assert_eq!(r.attestation.signature, "S");
            assert_eq!(r.attestation.timestamp, 9);
        }
        other => panic!("unexpected outbound {:?}", other),
    }
}

#[test]
fn task_without_chunks_is_error() {
    let agent = agent(true);
    match agent.handle_task(message(Some("verify_task"), Some(task("quest-e", vec![]))), 1) {
        Reaction::Reply(Outbound::TaskFailed { quest_id, error, .. }) => {
            assert_eq!(quest_id, "quest-e");
            assert_eq!(error, "task carries no data chunks");
        }
        other => panic!("unexpected reaction {:?}", other),
    }
}

#[test]
fn ping_yields_pong() {
    let agent = agent(false);
    let t = task("quest-f", vec![good_chunk("x")]);
    match agent.handle_task(message(Some("ping"), Some(t)), 1) {
        Reaction::Reply(Outbound::Pong { agent_id }) => assert_eq!(agent_id, "verifier-001"),
        other => panic!("unexpected reaction {:?}", other),
    }
}

#[test]
fn untyped_message_dropped_and_session_continues() {
    let agent = agent(true);
    match agent.on_event(ChannelEvent::Text(message(None, None)), 1) {
        SessionStep::Continue(Reaction::Ignore) => {}
        other => panic!("unexpected step {:?}", other),
    }
    match agent.on_event(ChannelEvent::Text(message(Some("ping"), None)), 2) {
        SessionStep::Continue(Reaction::Reply(Outbound::Pong { .. })) => {}
        other => panic!("unexpected step {:?}", other),
    }
}

#[test]
fn unknown_or_undecodable_messages_dropped() {
    let agent = agent(true);
    assert!(matches!(agent.handle_task(message(Some("status"), None), 1), Reaction::Ignore));
    assert!(matches!(agent.handle_task(message(Some("verify_task"), None), 1), Reaction::Ignore));
}

#[test]
fn close_and_transport_error_end_session() {
    let agent = agent(true);
    assert!(matches!(agent.on_event(ChannelEvent::Close, 1), SessionStep::Stop));
    assert!(matches!(
        agent.on_event(ChannelEvent::TransportError("reset".to_string()), 1),
        SessionStep::Stop
    ));
    assert!(matches!(
        agent.on_event(ChannelEvent::Other, 1),
        SessionStep::Continue(Reaction::Ignore)
    ));
}

#[test]
fn registration_announces_capabilities() {
    match agent(true).registration() {
        Outbound::Register { agent_id, capabilities } => {
            assert_eq!(agent_id, "verifier-001");
            assert_eq!(
                capabilities,
                vec!["tee_attestation", "hash_verification", "data_integrity"]
            );
        }
        other => panic!("unexpected outbound {:?}", other),
    }
}
