use chat_pipeline::completion::{
    completion_outcome, decode_history, history_context, log_context, CompletionRequest,
    ProviderReply, StoredRecord,
};
use chat_pipeline::error::{required_setting, ErrorKind, Flow};
use chat_pipeline::ingest::{
    encode_turn, fresh_timestamp, ingest, ingest_outcome, ingest_turn, latest_from_store,
    validate_ingest, IngestRequest,
};
use chat_pipeline::timestamp::{parse_timestamp, timestamp_text};
use chat_pipeline::reply::{read_reply, receive_reply};
use chat_pipeline::store::{append_table_name, ConversationLog};
use chat_pipeline::synthesis::{
    artifact_key, audio_url, new_artifact_key, publish_stage, speech_answer, synthesis_stage,
};
use chat_pipeline::turn::{project_context, Role, Turn};

fn request(user: &str, message: &str) -> IngestRequest {
    IngestRequest { user_id: user.to_string(), message: message.to_string() }
}

fn turn(user: &str, ts: u64, role: Role, content: &str) -> Turn {
    Turn::new(user.to_string(), ts, role, content.to_string())
}

#[test]
fn ingest_stores_one_user_turn_and_echoes_request() {
    let mut log = ConversationLog::new();
    let out = ingest(&mut log, request("u1", "hello"), 0).unwrap();
    assert_eq!(out.user_id, "u1");
    assert_eq!(out.message, "hello");
    assert_eq!(log.len(), 1);
    let h = log.history(&"u1".to_string());
    assert_eq!(h.len(), 1);
    assert_eq!(h[0].user_id, "u1");
    assert_eq!(h[0].timestamp, 0);
    assert_eq!(h[0].role, Role::User);
    assert_eq!(h[0].content, "hello");
}

#[test]
fn ingest_rejects_empty_user_or_message() {
    let mut log = ConversationLog::new();
    let e = ingest(&mut log, request("", "hello"), 1).unwrap_err();
    assert_eq!(e.kind, ErrorKind::InvalidInput);
    assert_eq!(e.flow, Flow::Ingest);
    let e = ingest(&mut log, request("u1", ""), 1).unwrap_err();
    assert_eq!(e.kind, ErrorKind::InvalidInput);
    assert_eq!(log.len(), 0);
}

#[test]
fn ingest_failed_write_records_nothing() {
    let mut log = ConversationLog::new();
    log.append(turn("u1", u64::MAX, Role::User, "hello")).unwrap();
    let e = ingest(&mut log, request("u1", "again"), 7).unwrap_err();
    assert_eq!(e.kind, ErrorKind::StorageWrite);
    assert_eq!(e.flow, Flow::Ingest);
    assert_eq!(log.len(), 1);
    let h = log.history(&"u1".to_string());
    assert_eq!(h.len(), 1);
    assert_eq!(h[0].content, "hello");
    let e = log.append(turn("u1", u64::MAX, Role::User, "dup")).unwrap_err();
    assert_eq!(e.kind, ErrorKind::StorageWrite);
    assert_eq!(log.len(), 1);
}

#[test]
fn ingest_on_a_coarse_clock_keeps_turns_apart() {
    let mut log = ConversationLog::new();
    ingest(&mut log, request("u1", "hello"), 7).unwrap();
    ingest(&mut log, request("u1", "again"), 7).unwrap();
    ingest(&mut log, request("u1", "late clock"), 3).unwrap();
    let h = log.history(&"u1".to_string());
    let ts: Vec<u64> = h.iter().map(|t| t.timestamp).collect();
    assert_eq!(ts, vec![7, 8, 9]);
    assert_eq!(h[2].content, "late clock");
}

#[test]
fn same_timestamp_for_other_user_is_accepted() {
    let mut log = ConversationLog::new();
    ingest(&mut log, request("u1", "hello"), 7).unwrap();
    ingest(&mut log, request("u2", "hey"), 7).unwrap();
    assert_eq!(log.history(&"u1".to_string()).len(), 1);
    assert_eq!(log.history(&"u2".to_string()).len(), 1);
}

#[test]
fn ingest_outcome_maps_store_answer() {
    let ok = ingest_outcome(request("u1", "hello"), Ok(())).unwrap();
    assert_eq!(ok.user_id, "u1");
    assert_eq!(ok.message, "hello");
    let e = ingest_outcome(request("u1", "hello"), Err("table missing".to_string())).unwrap_err();
    assert_eq!(e.kind, ErrorKind::StorageWrite);
    assert_eq!(e.cause, "table missing");
}

#[test]
fn ingest_turn_builds_user_turn() {
    let t = ingest_turn(&request("u1", "hello"), 42, None).unwrap();
    assert_eq!(t.user_id, "u1");
    assert_eq!(t.timestamp, 42);
    assert_eq!(ingest_turn(&request("u1", "hello"), 42, Some(42)).unwrap().timestamp, 43);
    assert_eq!(ingest_turn(&request("u1", "hello"), 42, Some(7)).unwrap().timestamp, 42);
    let e = ingest_turn(&request("u1", "hello"), 42, Some(u64::MAX)).unwrap_err();
    assert_eq!(e.kind, ErrorKind::StorageWrite);
    let e = ingest_turn(&request("", "hello"), 42, None).unwrap_err();
    assert_eq!(e.kind, ErrorKind::InvalidInput);
    assert_eq!(t.role, Role::User);
    assert_eq!(t.content, "hello");
}

#[test]
fn history_is_ascending_whatever_the_append_order() {
    let mut log = ConversationLog::new();
    log.append(turn("u1", 5, Role::User, "c")).unwrap();
    log.append(turn("u2", 3, Role::User, "x")).unwrap();
    log.append(turn("u1", 1, Role::User, "a")).unwrap();
    log.append(turn("u1", 3, Role::Assistant, "b")).unwrap();
    let h = log.history(&"u1".to_string());
    let ts: Vec<u64> = h.iter().map(|t| t.timestamp).collect();
    assert_eq!(ts, vec![1, 3, 5]);
    let contents: Vec<&str> = h.iter().map(|t| t.content.as_str()).collect();
    assert_eq!(contents, vec!["a", "b", "c"]);
    assert_eq!(log.history(&"u2".to_string()).len(), 1);
    assert_eq!(log.history(&"u3".to_string()).len(), 0);
}

#[test]
fn history_example_gives_context_in_order() {
    let mut log = ConversationLog::new();
    log.append(turn("u1", 1, Role::Assistant, "hi")).unwrap();
    log.append(turn("u1", 0, Role::User, "hello")).unwrap();
    let req = CompletionRequest { user_id: "u1".to_string(), prompt: "next".to_string() };
    let ctx = log_context(&log, &req);
    assert_eq!(ctx.len(), 2);
    assert_eq!(ctx[0].role, Role::User);
    assert_eq!(ctx[0].content, "hello");
    assert_eq!(ctx[1].role, Role::Assistant);
    assert_eq!(ctx[1].content, "hi");
}

#[test]
fn empty_history_still_completes_with_empty_text() {
    let log = ConversationLog::new();
    let req = CompletionRequest { user_id: "u9".to_string(), prompt: "hi".to_string() };
    assert_eq!(log_context(&log, &req).len(), 0);
    let reply = read_reply(b"{\"id\":\"x\"}");
    let out = completion_outcome(req, reply).unwrap();
    assert_eq!(out.completion, "");
    assert_eq!(out.user_id, "u9");
}

#[test]
fn reply_content_is_extracted() {
    let body = b"{\"choices\":[{\"message\":{\"role\":\"assistant\",\"content\":\"Hello there\"}}]}";
    match read_reply(body) {
        ProviderReply::Answered(Some(t)) => assert_eq!(t, "Hello there"),
        other => panic!("unexpected reply {:?}", other),
    }
    let req = CompletionRequest { user_id: "u1".to_string(), prompt: "p".to_string() };
    let out = completion_outcome(req, receive_reply(Ok(body.to_vec()))).unwrap();
    assert_eq!(out.completion, "Hello there");
    assert_eq!(out.user_id, "u1");
}

#[test]
fn non_string_content_reads_as_empty() {
    let body = b"{\"choices\":[{\"message\":{\"content\":null}}]}";
    assert!(matches!(read_reply(body), ProviderReply::Answered(None)));
}

#[test]
fn unparsable_reply_is_parse_error() {
    let reply = read_reply(b"not json");
    assert!(matches!(reply, ProviderReply::Malformed(_)));
    let req = CompletionRequest { user_id: "u1".to_string(), prompt: "p".to_string() };
    let e = completion_outcome(req, reply).unwrap_err();
    assert_eq!(e.kind, ErrorKind::CompletionParse);
    assert_eq!(e.flow, Flow::Completion);
}

#[test]
fn unreachable_provider_is_transport_error() {
    let reply = receive_reply(Err("connection refused".to_string()));
    let req = CompletionRequest { user_id: "u1".to_string(), prompt: "p".to_string() };
    let e = completion_outcome(req, reply).unwrap_err();
    assert_eq!(e.kind, ErrorKind::CompletionTransport);
    assert_eq!(e.cause, "connection refused");
}

#[test]
fn failed_history_fetch_aborts() {
    let e = history_context(Err("throttled".to_string())).unwrap_err();
    assert_eq!(e.kind, ErrorKind::HistoryFetch);
    assert_eq!(e.flow, Flow::Completion);
    assert_eq!(e.cause, "throttled");
    let ctx = history_context(Ok(vec![turn("u1", 0, Role::User, "hello")])).unwrap();
    assert_eq!(ctx.len(), 1);
    assert_eq!(ctx[0].content, "hello");
}

#[test]
fn records_decode_in_order() {
    let recs = vec![
        StoredRecord {
            timestamp: Some("1970-01-01T00:00:00.000001Z".to_string()),
            role: Some("user".to_string()),
            content: Some("a".to_string()),
        },
        StoredRecord {
            timestamp: Some("1970-01-01T00:00:02+00:00".to_string()),
            role: Some("assistant".to_string()),
            content: Some(String::new()),
        },
    ];
    let turns = decode_history(&"u1".to_string(), &recs).unwrap();
    assert_eq!(turns.len(), 2);
    assert_eq!(turns[0].role, Role::User);
    assert_eq!(turns[0].content, "a");
    assert_eq!(turns[1].role, Role::Assistant);
    assert_eq!(turns[1].content, "");
    assert_eq!(turns[0].timestamp, 1);
    assert_eq!(turns[1].timestamp, 2_000_000);
    assert_eq!(turns[1].user_id, "u1");
}

#[test]
fn malformed_records_fail_the_fetch() {
    let bad_role = vec![StoredRecord {
        timestamp: Some("2024-05-01T10:00:00Z".to_string()),
        role: Some("system".to_string()),
        content: None,
    }];
    let e = decode_history(&"u1".to_string(), &bad_role).unwrap_err();
    assert_eq!(e.kind, ErrorKind::HistoryFetch);
    let no_time = vec![StoredRecord {
        timestamp: None,
        role: Some("user".to_string()),
        content: Some("a".to_string()),
    }];
    assert!(decode_history(&"u1".to_string(), &no_time).is_err());
    let bad_time = vec![StoredRecord {
        timestamp: Some("yesterday".to_string()),
        role: Some("user".to_string()),
        content: Some("a".to_string()),
    }];
    assert!(decode_history(&"u1".to_string(), &bad_time).is_err());
    let no_role = vec![StoredRecord {
        timestamp: Some("2024-05-01T10:00:00Z".to_string()),
        role: None,
        content: Some("a".to_string()),
    }];
    let e = decode_history(&"u1".to_string(), &no_role).unwrap_err();
    assert_eq!(e.kind, ErrorKind::HistoryFetch);
    let no_content = vec![StoredRecord {
        timestamp: Some("2024-05-01T10:00:00Z".to_string()),
        role: Some("assistant".to_string()),
        content: None,
    }];
    assert!(decode_history(&"u1".to_string(), &no_content).is_err());
}

#[test]
fn roles_round_trip_through_their_names() {
    assert_eq!(Role::User.name(), "user");
    assert_eq!(Role::Assistant.name(), "assistant");
    assert_eq!(Role::parse(&Some("assistant".to_string())), Some(Role::Assistant));
    assert_eq!(Role::parse(&Some("user".to_string())), Some(Role::User));
    assert_eq!(Role::parse(&None), None);
    assert_eq!(Role::parse(&Some("bot".to_string())), None);
}

#[test]
fn projection_keeps_role_and_content() {
    let turns = vec![turn("u1", 0, Role::User, "hello"), turn("u1", 1, Role::Assistant, "hi")];
    let ctx = project_context(&turns);
    assert_eq!(ctx[0].role, Role::User);
    assert_eq!(ctx[1].content, "hi");
}

#[test]
fn artifact_key_uses_hyphenated_uuid() {
    let key = artifact_key(0x67e5_5044_10b1_426f_9247_bb68_0e5f_e0c8);
    assert_eq!(key, "audio/67e55044-10b1-426f-9247-bb680e5fe0c8.mp3");
}

#[test]
fn two_syntheses_get_distinct_keys_and_urls() {
    let k1 = new_artifact_key();
    let k2 = new_artifact_key();
    assert!(k1.starts_with("audio/") && k1.ends_with(".mp3"));
    assert_eq!(k1.len(), "audio/".len() + 36 + ".mp3".len());
    assert_ne!(k1, k2);
    assert_ne!(audio_url("bucket", &k1), audio_url("bucket", &k2));
}

#[test]
fn audio_url_is_derived_from_bucket_and_key() {
    assert_eq!(
        audio_url("my-bucket", "audio/a.mp3"),
        "https://my-bucket.s3.amazonaws.com/audio/a.mp3"
    );
}

#[test]
fn publish_failure_is_distinct_from_synthesis_failure() {
    let e = synthesis_stage(Err("voice unavailable".to_string())).unwrap_err();
    assert_eq!(e.kind, ErrorKind::Synthesis);
    assert_eq!(e.flow, Flow::Synthesis);
    let audio = synthesis_stage(Ok(vec![1, 2, 3])).unwrap();
    assert_eq!(audio, vec![1, 2, 3]);
    let e = publish_stage("b", "audio/k.mp3", Err("access denied".to_string())).unwrap_err();
    assert_eq!(e.kind, ErrorKind::Publish);
    assert_ne!(e.kind, ErrorKind::Synthesis);
    assert_eq!(e.cause, "access denied");
    let ok = publish_stage("b", "audio/k.mp3", Ok(())).unwrap();
    assert_eq!(ok.audio_url, "https://b.s3.amazonaws.com/audio/k.mp3");
}

#[test]
fn settings_are_required_or_defaulted() {
    let e = required_setting(Flow::Completion, "OPENAI_API_KEY", None).unwrap_err();
    assert_eq!(e.kind, ErrorKind::Configuration);
    assert_eq!(e.cause, "OPENAI_API_KEY");
    assert!(required_setting(Flow::Synthesis, "AUDIO_BUCKET", Some(String::new())).is_err());
    assert_eq!(
        required_setting(Flow::Completion, "CHAT_TABLE", Some("T".to_string())).unwrap(),
        "T"
    );
    assert_eq!(append_table_name(None), "ChatTable");
    assert_eq!(append_table_name(Some("Mine".to_string())), "Mine");
}

#[test]
fn fresh_timestamps_never_collide() {
    assert_eq!(fresh_timestamp(10, None), Some(10));
    assert_eq!(fresh_timestamp(10, Some(5)), Some(10));
    assert_eq!(fresh_timestamp(10, Some(10)), Some(11));
    assert_eq!(fresh_timestamp(3, Some(10)), Some(11));
    assert_eq!(fresh_timestamp(3, Some(u64::MAX)), None);
}

#[test]
fn next_timestamp_disambiguates_a_coarse_clock() {
    let mut log = ConversationLog::new();
    let u1 = "u1".to_string();
    assert_eq!(log.latest_timestamp(&u1), None);
    assert_eq!(log.next_timestamp(&u1, 100), Some(100));
    ingest(&mut log, request("u1", "one"), 100).unwrap();
    ingest(&mut log, request("u2", "other"), 500).unwrap();
    assert_eq!(log.latest_timestamp(&u1), Some(100));
    let t = log.next_timestamp(&u1, 100).unwrap();
    assert_eq!(t, 101);
    ingest(&mut log, request("u1", "two"), t).unwrap();
    assert_eq!(log.next_timestamp(&u1, 300), Some(300));
    assert_eq!(log.history(&u1).len(), 2);
}

#[test]
fn speech_answer_follows_the_status() {
    assert_eq!(speech_answer(200, vec![9, 8], String::new()), Ok(vec![9, 8]));
    assert_eq!(speech_answer(299, vec![1], String::new()), Ok(vec![1]));
    assert_eq!(
        speech_answer(401, b"bad key".to_vec(), "bad key".to_string()),
        Err("bad key".to_string())
    );
    assert!(speech_answer(199, vec![], "x".to_string()).is_err());
    assert!(speech_answer(300, vec![], "x".to_string()).is_err());
}

#[test]
fn timestamps_are_stored_as_rfc3339_text() {
    assert_eq!(timestamp_text(1).unwrap(), "1970-01-01T00:00:00.000001Z");
    assert_eq!(timestamp_text(1_714_557_600_000_000).unwrap(), "2024-05-01T10:00:00.000000Z");
    assert_eq!(timestamp_text(u64::MAX), None);
    assert_eq!(parse_timestamp("2024-05-01T10:00:00.000000Z"), Some(1_714_557_600_000_000));
    assert_eq!(parse_timestamp("2024-05-01T12:00:00+02:00"), Some(1_714_557_600_000_000));
    assert_eq!(parse_timestamp("1969-12-31T23:59:59Z"), None);
    assert_eq!(parse_timestamp("not a time"), None);
}

#[test]
fn turns_encode_to_store_records() {
    let rec = encode_turn(&turn("u1", 2_000_000, Role::Assistant, "hi")).unwrap();
    assert_eq!(rec.user_id, "u1");
    assert_eq!(rec.timestamp, "1970-01-01T00:00:02.000000Z");
    assert_eq!(rec.role, "assistant");
    assert_eq!(rec.content, "hi");
    let e = encode_turn(&turn("u1", u64::MAX, Role::User, "x")).unwrap_err();
    assert_eq!(e.kind, ErrorKind::StorageWrite);
}

#[test]
fn latest_stored_timestamp_is_read_back() {
    assert_eq!(latest_from_store(None).unwrap(), None);
    assert_eq!(
        latest_from_store(Some("1970-01-01T00:00:02.000000Z".to_string())).unwrap(),
        Some(2_000_000)
    );
    let e = latest_from_store(Some("garbage".to_string())).unwrap_err();
    assert_eq!(e.kind, ErrorKind::StorageWrite);
    assert!(validate_ingest(&request("u1", "m")).is_ok());
    assert_eq!(validate_ingest(&request("u1", "")).unwrap_err().kind, ErrorKind::InvalidInput);
}
