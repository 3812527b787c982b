use disco_gateway::account::{gen_id, AccountMapping, AuthError, BotClient, ControlledAccount, DiscordApiResponse};
use disco_gateway::api_schema::{decode, encode, ProtocolError, WsMessage, WsMessageType};
use disco_gateway::connection::{ConnectionState, Phase};
use disco_gateway::heartbeat::HeartbeatScheduler;
use disco_gateway::incoming::IncomingWsEvent;
use disco_gateway::json::{get_field, parse_json, str_eq, write_json, JsonValue};
use disco_gateway::manager::BotManager;
use disco_gateway::util::strip_quotes;
use disco_gateway::writer::{ClientProperties, OutboundCommand, OutboundWriter, WriteFailure, WriterInput, WriterPhase};

fn json(text: &str) -> JsonValue {
    parse_json(text).expect("test input is JSON")
}

fn payload_of(text: &str) -> JsonValue {
    decode(text).expect("a frame").d.expect("a payload")
}

fn str_member(v: &JsonValue, key: &str) -> Option<String> {
    match get_field(v, key) {
        Some(JsonValue::Str(s)) => Some(s.clone()),
        _ => None,
    }
}

fn open_connection() -> ConnectionState {
    let mut c = ConnectionState::new();
    c.on_socket_open();
    c
}

const HELLO: &str = r#"{"op":10,"s":null,"t":null,"d":{"heartbeat_interval":45000}}"#;

const READY_TWO_GUILDS: &str = r#"{"op":0,"s":1,"t":"READY","d":{"session_id":"abc123","resume_gateway_url":"wss://resume.example","guilds":[{"id":"g0","name":"zero"},{"id":"g1"}]}}"#;

// ---- frame codec ----

#[test]
fn encode_heartbeat_with_sequence() {
    assert_eq!(encode(WsMessageType::Heartbeat(Some(42))), r#"{"d":42,"op":1}"#);
}

#[test]
fn encode_heartbeat_without_sequence_omits_payload() {
    assert_eq!(encode(WsMessageType::Heartbeat(None)), r#"{"op":1}"#);
}

#[test]
fn encode_identify() {
    let cmd = WsMessageType::Identify {
        token: "tok".to_string(),
        os: "win".to_string(),
        browser: "disco".to_string(),
        device: "disco".to_string(),
    };
    assert_eq!(
        encode(cmd),
        r#"{"d":{"properties":{"browser":"disco","device":"disco","os":"win"},"token":"tok"},"op":2}"#
    );
}

#[test]
fn encode_voice_state_with_null_channel() {
    let cmd = WsMessageType::UpdateVoiceState {
        guild_id: "g".to_string(),
        channel_id: None,
        self_mute: true,
        self_deaf: false,
    };
    assert_eq!(
        encode(cmd),
        r#"{"d":{"channel_id":null,"guild_id":"g","self_deaf":false,"self_mute":true},"op":4}"#
    );
}

#[test]
fn encode_presence_without_activities_writes_empty_list() {
    let cmd = WsMessageType::UpdatePresence {
        since: None,
        activities: None,
        status: "online".to_string(),
        afk: false,
    };
    assert_eq!(
        encode(cmd),
        r#"{"d":{"activities":[],"afk":false,"since":null,"status":"online"},"op":3}"#
    );
}

#[test]
fn round_trip_heartbeat() {
    let m = decode(&encode(WsMessageType::Heartbeat(Some(7)))).unwrap();
    assert_eq!(m.op, 1);
    assert_eq!(m.s, None);
    assert!(m.t.is_none());
    assert!(matches!(m.d, Some(JsonValue::Int(7))));
}

#[test]
fn round_trip_identify() {
    let cmd = WsMessageType::Identify {
        token: "secret".to_string(),
        os: "linux".to_string(),
        browser: "b".to_string(),
        device: "d".to_string(),
    };
    let m = decode(&encode(cmd)).unwrap();
    assert_eq!(m.op, 2);
    let d = m.d.unwrap();
    assert_eq!(str_member(&d, "token"), Some("secret".to_string()));
    let props = get_field(&d, "properties").unwrap();
    assert_eq!(str_member(props, "os"), Some("linux".to_string()));
    assert_eq!(str_member(props, "browser"), Some("b".to_string()));
    assert_eq!(str_member(props, "device"), Some("d".to_string()));
}

#[test]
fn round_trip_voice_state() {
    let cmd = WsMessageType::UpdateVoiceState {
        guild_id: "g1".to_string(),
        channel_id: Some("c1".to_string()),
        self_mute: false,
        self_deaf: true,
    };
    let m = decode(&encode(cmd)).unwrap();
    assert_eq!(m.op, 4);
    let d = m.d.unwrap();
    assert_eq!(str_member(&d, "guild_id"), Some("g1".to_string()));
    assert_eq!(str_member(&d, "channel_id"), Some("c1".to_string()));
    assert!(matches!(get_field(&d, "self_mute"), Some(JsonValue::Bool(false))));
    assert!(matches!(get_field(&d, "self_deaf"), Some(JsonValue::Bool(true))));
}

#[test]
fn round_trip_presence() {
    let cmd = WsMessageType::UpdatePresence {
        since: Some(1000),
        activities: Some(vec![json(r#"{"name":"x","type":0}"#)]),
        status: "idle".to_string(),
        afk: true,
    };
    let m = decode(&encode(cmd)).unwrap();
    assert_eq!(m.op, 3);
    let d = m.d.unwrap();
    assert!(matches!(get_field(&d, "since"), Some(JsonValue::Int(1000))));
    assert_eq!(str_member(&d, "status"), Some("idle".to_string()));
    match get_field(&d, "activities") {
        Some(JsonValue::Array(items)) => {
            assert_eq!(items.len(), 1);
            assert_eq!(str_member(&items[0], "name"), Some("x".to_string()));
        }
        other => panic!("unexpected activities {:?}", other),
    }
}

#[test]
fn decode_full_envelope() {
    let m = decode(r#"{"op":0,"s":12,"t":"SOMETHING","d":{"a":1}}"#).unwrap();
    assert_eq!(m.op, 0);
    assert_eq!(m.s, Some(12));
    assert_eq!(m.t.as_deref(), Some("SOMETHING"));
    assert!(matches!(get_field(m.d.as_ref().unwrap(), "a"), Some(JsonValue::Int(1))));
}

#[test]
fn decode_nulls_are_absent() {
    let m = decode(r#"{"op":11,"s":null,"t":null,"d":null}"#).unwrap();
    assert_eq!(m.op, 11);
    assert_eq!(m.s, None);
    assert!(m.t.is_none());
    assert!(m.d.is_none());
}

#[test]
fn decode_malformed_text() {
    assert_eq!(decode("{not json").unwrap_err(), ProtocolError::NotJson);
}

#[test]
fn decode_json_that_is_not_an_envelope() {
    assert_eq!(decode("[1,2,3]").unwrap_err(), ProtocolError::NotAnEnvelope);
    assert_eq!(decode(r#"{"op":"one"}"#).unwrap_err(), ProtocolError::NotAnEnvelope);
    assert_eq!(decode(r#"{"s":1}"#).unwrap_err(), ProtocolError::NotAnEnvelope);
    assert_eq!(decode(r#"{"op":1,"s":"x"}"#).unwrap_err(), ProtocolError::NotAnEnvelope);
    assert_eq!(decode(r#"{"op":1,"t":5}"#).unwrap_err(), ProtocolError::NotAnEnvelope);
}

#[test]
fn message_to_json_omits_absent_fields() {
    let m = WsMessage { t: None, s: None, op: 9, d: None };
    assert_eq!(write_json(&m.to_json()), r#"{"op":9}"#);
    let m = WsMessage { t: Some("X".to_string()), s: Some(3), op: 0, d: Some(JsonValue::Bool(true)) };
    assert_eq!(write_json(&m.to_json()), r#"{"d":true,"op":0,"s":3,"t":"X"}"#);
}

// ---- inbound events ----

#[test]
fn hello_event() {
    let m = decode(HELLO).unwrap();
    assert!(matches!(IncomingWsEvent::from_message(&m), IncomingWsEvent::Hello { heartbeat_interval: 45000 }));
}

#[test]
fn ready_event_with_two_guilds() {
    let m = decode(READY_TWO_GUILDS).unwrap();
    match IncomingWsEvent::from_message(&m) {
        IncomingWsEvent::Ready { session_id, guilds, resume_gateway_url } => {
            assert_eq!(session_id, "abc123");
            assert_eq!(resume_gateway_url, "wss://resume.example");
            assert_eq!(guilds.len(), 2);
            assert_eq!(guilds[0].id, "g0");
            assert_eq!(guilds[0].name.as_deref(), Some("zero"));
            assert_eq!(guilds[1].id, "g1");
            assert!(guilds[1].name.is_none());
        }
        other => panic!("unexpected {:?}", other),
    }
}

#[test]
fn presence_update_event() {
    let m = decode(r#"{"op":0,"s":2,"t":"PRESENCE_UPDATE","d":{"user":{"id":"u1","username":"name"},"status":"online","guild_id":"g9"}}"#).unwrap();
    match IncomingWsEvent::from_message(&m) {
        IncomingWsEvent::PresenceUpdate { user, status, guild_id } => {
            assert_eq!(user.id, "u1");
            assert_eq!(user.username.as_deref(), Some("name"));
            assert!(user.avatar.is_none());
            assert_eq!(status, "online");
            assert_eq!(guild_id, "g9");
        }
        other => panic!("unexpected {:?}", other),
    }
}

#[test]
fn unknown_event_is_unrecognized() {
    let m = decode(r#"{"op":0,"s":3,"t":"SESSIONS_REPLACE","d":[1]}"#).unwrap();
    match IncomingWsEvent::from_message(&m) {
        IncomingWsEvent::Unrecognized { op, t, d } => {
            assert_eq!(op, 0);
            assert_eq!(t.as_deref(), Some("SESSIONS_REPLACE"));
            assert!(matches!(d, Some(JsonValue::Array(_))));
        }
        other => panic!("unexpected {:?}", other),
    }
}

#[test]
fn misshapen_payload_is_unrecognized() {
    let m = decode(r#"{"op":10,"d":{"heartbeat_interval":"soon"}}"#).unwrap();
    assert!(matches!(IncomingWsEvent::from_message(&m), IncomingWsEvent::Unrecognized { op: 10, .. }));
    let m = decode(r#"{"op":0,"t":"READY","d":{"session_id":"s","resume_gateway_url":"u","guilds":[{"name":"no id"}]}}"#).unwrap();
    assert!(matches!(IncomingWsEvent::from_message(&m), IncomingWsEvent::Unrecognized { .. }));
}

// ---- dispatcher ----

#[test]
fn hello_starts_heartbeat_with_first_delay_below_interval() {
    let mut c = open_connection();
    let out = c.on_frame(HELLO);
    assert_eq!(out.start_heartbeat, Some(45000));
    assert!(c.heartbeat_started);
    assert_eq!(c.phase, Phase::Identifying);
    let mut hb = HeartbeatScheduler::start(45000);
    assert!(hb.first_delay_ms < 45000);
    assert_eq!(hb.next_delay(), hb.first_delay_ms);
    assert!(matches!(hb.tick(c.last_sequence), Some(WsMessageType::Heartbeat(None))));
    assert_eq!(hb.next_delay(), 45000);
}

#[test]
fn duplicate_hello_starts_heartbeat_once() {
    let mut c = open_connection();
    assert_eq!(c.on_frame(HELLO).start_heartbeat, Some(45000));
    assert_eq!(c.on_frame(HELLO).start_heartbeat, None);
    assert_eq!(c.on_frame(HELLO).start_heartbeat, None);
    assert!(c.heartbeat_started);
}

#[test]
fn hello_with_zero_interval_starts_nothing() {
    let mut c = open_connection();
    let out = c.on_frame(r#"{"op":10,"d":{"heartbeat_interval":0}}"#);
    assert_eq!(out.start_heartbeat, None);
    assert!(!c.heartbeat_started);
}

#[test]
fn malformed_frame_keeps_established_phase() {
    let mut c = open_connection();
    c.on_frame(HELLO);
    c.on_frame(READY_TWO_GUILDS);
    assert_eq!(c.phase, Phase::Established);
    let before = c.last_sequence;
    let out = c.on_frame("{not json");
    assert!(matches!(out.event, Err(ProtocolError::NotJson)));
    assert_eq!(out.start_heartbeat, None);
    assert_eq!(c.phase, Phase::Established);
    assert_eq!(c.last_sequence, before);
}

#[test]
fn ready_with_two_guilds_stores_session() {
    let mut c = open_connection();
    c.on_frame(HELLO);
    let out = c.on_frame(READY_TWO_GUILDS);
    assert!(matches!(out.event, Ok(IncomingWsEvent::Ready { .. })));
    assert_eq!(c.session_id.as_deref(), Some("abc123"));
    assert_eq!(c.phase, Phase::Established);
}

#[test]
fn sequence_counter_is_maximum_seen() {
    let mut c = open_connection();
    assert_eq!(c.last_sequence, -1);
    c.on_frame(r#"{"op":0,"s":1,"t":"A","d":{}}"#);
    c.on_frame("garbage");
    c.on_frame(r#"{"op":0,"s":5,"t":"B","d":{}}"#);
    let out = c.on_frame(r#"{"op":0,"s":3,"t":"C","d":{}}"#);
    assert!(out.sequence_regressed);
    c.on_frame(r#"{"op":0,"s":99"#);
    assert_eq!(c.last_sequence, 5);
    let out = c.on_frame(r#"{"op":11}"#);
    assert!(!out.sequence_regressed);
    assert_eq!(c.last_sequence, 5);
}

#[test]
fn closed_connection_ignores_frames() {
    let mut c = open_connection();
    c.begin_close();
    assert_eq!(c.phase, Phase::Closing);
    let out = c.on_frame(HELLO);
    assert_eq!(out.start_heartbeat, None);
    assert!(!c.heartbeat_started);
    c.on_socket_closed();
    assert_eq!(c.phase, Phase::Closed);
    c.begin_close();
    assert_eq!(c.phase, Phase::Closed);
}

// ---- heartbeat ----

#[test]
fn heartbeat_carries_last_sequence_and_stops_on_refusal() {
    let mut hb = HeartbeatScheduler::with_first_delay(1000, 10);
    assert_eq!(hb.next_delay(), 10);
    assert!(matches!(hb.tick(17), Some(WsMessageType::Heartbeat(Some(17)))));
    assert_eq!(hb.sent, 1);
    assert_eq!(hb.next_delay(), 1000);
    hb.on_enqueued(true);
    assert!(!hb.stopped);
    hb.on_enqueued(false);
    assert!(hb.stopped);
    assert!(hb.tick(18).is_none());
}

// ---- writer ----

fn writer() -> OutboundWriter {
    OutboundWriter::new("tok".to_string(), ClientProperties::this_client())
}

const IDENTIFY_TEXT: &str = r#"{"d":{"properties":{"browser":"disco","device":"disco","os":"win"},"token":"tok"},"op":2}"#;

#[test]
fn identify_is_first_frame() {
    let mut w = writer();
    let out = w.step(WriterInput::Start);
    assert_eq!(out, vec![IDENTIFY_TEXT.to_string()]);
    let out = w.step(WriterInput::Item(OutboundCommand::Send(WsMessageType::Heartbeat(None))));
    assert_eq!(out, vec![r#"{"op":1}"#.to_string()]);
}

#[test]
fn identify_precedes_a_command_queued_before_start() {
    let mut w = writer();
    let out = w.step(WriterInput::Item(OutboundCommand::Send(WsMessageType::Heartbeat(Some(3)))));
    assert_eq!(out, vec![IDENTIFY_TEXT.to_string(), r#"{"d":3,"op":1}"#.to_string()]);
    assert!(w.step(WriterInput::Start).is_empty());
}

#[test]
fn closed_queue_stops_writer() {
    let mut w = writer();
    w.step(WriterInput::Start);
    assert!(w.step(WriterInput::QueueClosed).is_empty());
    assert_eq!(w.phase, WriterPhase::Stopped);
    assert!(w.step(WriterInput::Item(OutboundCommand::Send(WsMessageType::Heartbeat(None)))).is_empty());
    assert!(w.step(WriterInput::Start).is_empty());
}

#[test]
fn write_failures() {
    let mut w = writer();
    w.step(WriterInput::Start);
    w.step(WriterInput::WriteFailed(WriteFailure::Other));
    assert_eq!(w.phase, WriterPhase::Running);
    w.step(WriterInput::WriteFailed(WriteFailure::AlreadyClosed));
    assert_eq!(w.phase, WriterPhase::Stopped);
    let mut w = writer();
    w.step(WriterInput::WriteFailed(WriteFailure::ConnectionClosed));
    assert_eq!(w.phase, WriterPhase::Stopped);
    let mut w = writer();
    w.step(WriterInput::Item(OutboundCommand::Disconnect));
    assert_eq!(w.phase, WriterPhase::Stopped);
}

// ---- accounts and registry ----

const USER: &str = r#"{"id":"1234","username":"bot","discriminator":"0001"}"#;
const REFUSAL: &str = r#"{"code":0,"message":"401: Unauthorized","errors":null}"#;

#[test]
fn rejected_credential_adds_nothing() {
    let mut m: BotManager<u8> = BotManager::new();
    let r = m.add_account("bad".to_string(), "me".to_string(), &json(REFUSAL));
    assert_eq!(r, Err(AuthError::InvalidCredential));
    assert_eq!(m.len(), 0);
}

#[test]
fn unusable_probe_answer_adds_nothing() {
    let mut m: BotManager<u8> = BotManager::new();
    let r = m.add_account("t".to_string(), "me".to_string(), &json(r#"{"hello":1}"#));
    assert_eq!(r, Err(AuthError::ProbeFailed));
    assert_eq!(m.len(), 0);
}

#[test]
fn accepted_credential_registers_account() {
    let mut m: BotManager<u8> = BotManager::new();
    let i = m.add_account("good".to_string(), "me".to_string(), &json(USER)).unwrap();
    assert_eq!(i, 0);
    assert_eq!(m.len(), 1);
    assert!(m.bots[0].0.is_none());
    assert_eq!(m.bots[0].1.account_id, "1234");
    assert_eq!(m.bots[0].1.username, "bot");
    assert_eq!(m.bots[0].1.account_token, "good");
    m.attach(0, 7);
    assert_eq!(m.bots[0].0, Some(7));
    assert!(m.contains("1234"));
    assert!(!m.contains("999"));
    let removed = m.remove_account("1234").unwrap();
    assert_eq!(removed.0, Some(7));
    assert_eq!(m.len(), 0);
    assert!(m.remove_account("1234").is_none());
}

#[test]
fn probe_answer_kinds() {
    match DiscordApiResponse::from_json(&json(USER)).unwrap().into_result() {
        Ok(u) => {
            assert_eq!(u.id, "1234");
            assert_eq!(u.discriminator, "0001");
        }
        Err(e) => panic!("unexpected {:?}", e),
    }
    match DiscordApiResponse::from_json(&json(REFUSAL)).unwrap().into_result() {
        Err(e) => {
            assert_eq!(e.code, 0);
            assert_eq!(e.message, "401: Unauthorized");
        }
        Ok(u) => panic!("unexpected {:?}", u),
    }
    assert!(DiscordApiResponse::from_json(&json("[]")).is_none());
}

#[test]
fn generated_ids_are_sixteen_hex_digits() {
    let a = gen_id();
    let b = gen_id();
    assert_eq!(a.len(), 16);
    assert!(a.chars().all(|c| c.is_ascii_hexdigit() && !c.is_ascii_uppercase()));
    assert_ne!(a, b);
}

#[test]
fn records_copy_the_client() {
    let client = BotClient::new("tok".to_string(), "creator".to_string(), &json(USER)).unwrap();
    let acc: ControlledAccount = client.to_discord_account();
    assert_eq!(acc.discord_id, "1234");
    assert_eq!(acc.username, "bot");
    assert_eq!(acc.token, "tok");
    assert_eq!(acc.created_by, "creator");
    assert_eq!(acc.id.len(), 16);
    let map = AccountMapping::new(&acc, "555".to_string());
    assert_eq!(map.mapped_discord_id, "555");
    assert_eq!(map.controlled_username, "bot");
    assert_eq!(map.controlled_discord_id, "1234");
    assert_eq!(map.controlled_internal_id, acc.id);
    assert_eq!(map.id.len(), 16);
}

// ---- helpers ----

#[test]
fn strip_quotes_cases() {
    assert_eq!(strip_quotes("\"abc\"".to_string()), "abc");
    assert_eq!(strip_quotes("abc".to_string()), "abc");
    assert_eq!(strip_quotes("\"abc".to_string()), "abc");
    assert_eq!(strip_quotes("abc\"".to_string()), "abc");
    assert_eq!(strip_quotes("\"".to_string()), "");
    assert_eq!(strip_quotes("\"\"".to_string()), "");
    assert_eq!(strip_quotes(String::new()), "");
}

#[test]
fn json_parse_and_lookup() {
    let v = json(r#"{"a":{"b":[1,2.5,"x",null,true]},"big":18446744073709551615}"#);
    let a = get_field(&v, "a").unwrap();
    match get_field(a, "b") {
        Some(JsonValue::Array(items)) => {
            assert!(matches!(items[0], JsonValue::Int(1)));
            assert!(matches!(&items[1], JsonValue::Num(s) if s == "2.5"));
            assert!(matches!(&items[2], JsonValue::Str(s) if s == "x"));
            assert!(matches!(items[3], JsonValue::Null));
            assert!(matches!(items[4], JsonValue::Bool(true)));
        }
        other => panic!("unexpected {:?}", other),
    }
    assert!(matches!(get_field(&v, "big"), Some(JsonValue::Num(_))));
    assert!(get_field(&v, "missing").is_none());
    assert!(parse_json("").is_none());
    assert!(str_eq("abc", "abc"));
    assert!(!str_eq("abc", "abd"));
    assert!(!str_eq("ab", "abc"));
    assert_eq!(str_member(&payload_of(HELLO), "x"), None);
}

#[test]
fn enqueue_after_queue_close_fails_at_once() {
    let (tx, rx) = async_channel::unbounded::<OutboundCommand>();
    assert!(tx.try_send(OutboundCommand::Send(WsMessageType::Heartbeat(None))).is_ok());
    rx.close();
    assert!(tx.try_send(OutboundCommand::Send(WsMessageType::Heartbeat(None))).is_err());
    assert!(tx.send_blocking(OutboundCommand::Disconnect).is_err());
    let mut w = writer();
    w.step(WriterInput::Start);
    assert!(w.step(WriterInput::QueueClosed).is_empty());
    assert_eq!(w.phase, WriterPhase::Stopped);
}
