//! The gateway's wire unit and the commands a client sends.
use vstd::prelude::*;
use crate::json::{
    any_member, get_any, get_int, get_opt_int, get_opt_str, int_member, json_view, opt_int_member,
    opt_str_member, parse_json, parsed_text, write_json, written_text, copy_json, Json, JsonValue,
    lemma_lookup_found, lemma_lookup_missing, lemma_object_view, members_view, push_member,
};

verus! {

/// Server dispatch of a named event.
pub const OP_DISPATCH: i64 = 0;

/// Client heartbeat.
pub const OP_HEARTBEAT: i64 = 1;

/// Client identify.
pub const OP_IDENTIFY: i64 = 2;

/// Client presence update.
pub const OP_PRESENCE_UPDATE: i64 = 3;

/// Client voice state update.
pub const OP_VOICE_STATE_UPDATE: i64 = 4;

/// Server hello: the start of the handshake.
pub const OP_HELLO: i64 = 10;

/// Why a frame could not be read.
#[derive(Debug, Clone, Copy, PartialEq, Eq)]
pub enum ProtocolError {
    /// The text is not JSON.
    NotJson,
    /// The text is JSON, but not an object with an integer `op`, an optional
    /// integer `s` and an optional string `t`.
    NotAnEnvelope,
}

/// A frame: `{ "op": int, "s": int?, "t": string?, "d": value? }`.
#[derive(Debug)]
pub struct WsMessage {
    pub t: Option<String>,
    pub s: Option<i64>,
    pub op: i64,
    pub d: Option<JsonValue>,
}

/// The model of a frame.
pub struct Envelope {
    pub op: int,
    pub s: Option<int>,
    pub t: Option<Seq<char>>,
    pub d: Option<Json>,
}

pub open spec fn opt_int_view(o: Option<i64>) -> Option<int> {
    match o {
        Some(n) => Some(n as int),
        None => None,
    }
}

pub open spec fn opt_str_view(o: Option<String>) -> Option<Seq<char>> {
    match o {
        Some(s) => Some(s@),
        None => None,
    }
}

pub open spec fn opt_json_view(o: Option<JsonValue>) -> Option<Json> {
    match o {
        Some(v) => Some(v@),
        None => None,
    }
}

impl View for WsMessage {
    type V = Envelope;

    open spec fn view(&self) -> Envelope {
        Envelope {
            op: self.op as int,
            s: opt_int_view(self.s),
            t: opt_str_view(self.t),
            d: opt_json_view(self.d),
        }
    }
}

/// The JSON object of a frame; absent members are left out, not written as
/// `null`.
pub open spec fn envelope_json(e: Envelope) -> Json {
    let t = match e.t {
        Some(t) => seq![("t"@, Json::Str(t))],
        None => Seq::empty(),
    };
    let s = match e.s {
        Some(n) => seq![("s"@, Json::Int(n))],
        None => Seq::empty(),
    };
    let d = match e.d {
        Some(d) => seq![("d"@, d)],
        None => Seq::empty(),
    };
    Json::Object(t + s + seq![("op"@, Json::Int(e.op))] + d)
}

/// The frame that a JSON document holds, if it holds one.
pub open spec fn envelope_from_json(j: Json) -> Option<Envelope> {
    match (int_member(j, "op"@), opt_int_member(j, "s"@), opt_str_member(j, "t"@)) {
        (Some(op), Some(s), Some(t)) => Some(Envelope { op, s, t, d: any_member(j, "d"@) }),
        _ => None,
    }
}

/// What reading a text gives.
pub open spec fn decoded(text: Seq<char>) -> Result<Envelope, ProtocolError> {
    match parsed_text(text) {
        None => Err(ProtocolError::NotJson),
        Some(j) => match envelope_from_json(j) {
            None => Err(ProtocolError::NotAnEnvelope),
            Some(e) => Ok(e),
        },
    }
}

pub open spec fn result_view(r: Result<WsMessage, ProtocolError>) -> Result<Envelope, ProtocolError> {
    match r {
        Ok(m) => Ok(m@),
        Err(e) => Err(e),
    }
}

impl WsMessage {
    /// The JSON object of this frame.
    pub fn to_json(&self) -> (r: JsonValue)
        ensures
            r@ == envelope_json(self@),
    {
        let mut fields: Vec<(String, JsonValue)> = Vec::new();
        let ghost mut model: Seq<(Seq<char>, Json)> = Seq::empty();
        assert(members_view(fields@) =~= model);
        match &self.t {
            Some(t) => {
                push_member(&mut fields, "t", JsonValue::Str(t.clone()));
                proof {
                    model = model.push(("t"@, Json::Str(t@)));
                }
            },
            None => {},
        }
        match self.s {
            Some(n) => {
                push_member(&mut fields, "s", JsonValue::Int(n));
                proof {
                    model = model.push(("s"@, Json::Int(n as int)));
                }
            },
            None => {},
        }
        push_member(&mut fields, "op", JsonValue::Int(self.op));
        proof {
            model = model.push(("op"@, Json::Int(self.op as int)));
        }
        match &self.d {
            Some(d) => {
                push_member(&mut fields, "d", copy_json(d));
                proof {
                    model = model.push(("d"@, d@));
                }
            },
            None => {},
        }
        proof {
            lemma_object_view(fields);
        }
        let r = JsonValue::Object(fields);
        assert(envelope_json(self@)->Object_0 =~= model);
        r
    }

    /// Reads a frame out of a JSON document.
    pub fn from_json(j: &JsonValue) -> (r: Result<WsMessage, ProtocolError>)
        ensures
            result_view(r) == match envelope_from_json(j@) {
                Some(e) => Ok(e),
                None => Err(ProtocolError::NotAnEnvelope),
            },
    {
        let op = get_int(j, "op");
        let s = get_opt_int(j, "s");
        let t = get_opt_str(j, "t");
        match (op, s, t) {
            (Some(op), Some(s), Some(t)) => {
                let d = get_any(j, "d");
                let m = WsMessage { t, s, op, d };
                assert(m@.s == opt_int_member(j@, "s"@)->0);
                assert(m@.t == opt_str_member(j@, "t"@)->0);
                Ok(m)
            },
            _ => Err(ProtocolError::NotAnEnvelope),
        }
    }
}

/// Reads a frame out of a socket text. A failure here is never fatal to a
/// connection: the caller records it and goes on with the next frame.
pub fn decode(text: &str) -> (r: Result<WsMessage, ProtocolError>)
    ensures
        result_view(r) == decoded(text@),
{
    match parse_json(text) {
        None => Err(ProtocolError::NotJson),
        Some(j) => WsMessage::from_json(&j),
    }
}

/// A command for the gateway.
#[derive(Debug)]
pub enum WsMessageType {
    /// A liveness ping carrying the last sequence number seen, if any.
    Heartbeat(Option<i64>),
    /// The handshake command: credential and client description.
    Identify { token: String, os: String, browser: String, device: String },
    /// Join, move between or leave voice channels.
    UpdateVoiceState {
        guild_id: String,
        channel_id: Option<String>,
        self_mute: bool,
        self_deaf: bool,
    },
    /// Change the account's presence; no activities is the empty list.
    UpdatePresence {
        since: Option<i64>,
        activities: Option<Vec<JsonValue>>,
        status: String,
        afk: bool,
    },
}

/// The opcode of each kind of command.
pub open spec fn command_opcode(c: WsMessageType) -> int {
    match c {
        WsMessageType::Heartbeat(_) => OP_HEARTBEAT as int,
        WsMessageType::Identify { .. } => OP_IDENTIFY as int,
        WsMessageType::UpdatePresence { .. } => OP_PRESENCE_UPDATE as int,
        WsMessageType::UpdateVoiceState { .. } => OP_VOICE_STATE_UPDATE as int,
    }
}

/// The payload of each command.
pub open spec fn command_payload(c: WsMessageType) -> Option<Json> {
    match c {
        WsMessageType::Heartbeat(last) => match last {
            Some(n) => Some(Json::Int(n as int)),
            None => None,
        },
        WsMessageType::Identify { token, os, browser, device } => Some(
            Json::Object(
                seq![
                    ("token"@, Json::Str(token@)),
                    ("properties"@, Json::Object(
                        seq![
                            ("os"@, Json::Str(os@)),
                            ("browser"@, Json::Str(browser@)),
                            ("device"@, Json::Str(device@)),
                        ],
                    )),
                ],
            ),
        ),
        WsMessageType::UpdateVoiceState { guild_id, channel_id, self_mute, self_deaf } => Some(
            Json::Object(
                seq![
                    ("guild_id"@, Json::Str(guild_id@)),
                    ("channel_id"@, match channel_id {
                        Some(c) => Json::Str(c@),
                        None => Json::Null,
                    }),
                    ("self_mute"@, Json::Bool(self_mute)),
                    ("self_deaf"@, Json::Bool(self_deaf)),
                ],
            ),
        ),
        WsMessageType::UpdatePresence { since, activities, status, afk } => Some(
            Json::Object(
                seq![
                    ("since"@, match since {
                        Some(n) => Json::Int(n as int),
                        None => Json::Null,
                    }),
                    ("activities"@, match activities {
                        Some(a) => json_view(&JsonValue::Array(a)),
                        None => Json::Array(Seq::empty()),
                    }),
                    ("status"@, Json::Str(status@)),
                    ("afk"@, Json::Bool(afk)),
                ],
            ),
        ),
    }
}

/// The frame of a command: its opcode and payload, no sequence, no name.
pub open spec fn command_envelope(c: WsMessageType) -> Envelope {
    Envelope { op: command_opcode(c), s: None, t: None, d: command_payload(c) }
}

impl WsMessageType {
    /// The frame of this command.
    pub fn into_ws_message(self) -> (r: WsMessage)
        ensures
            r@ == command_envelope(self),
    {
        let ghost c = self;
        match self {
            WsMessageType::Heartbeat(last) => WsMessage {
                t: None,
                s: None,
                op: OP_HEARTBEAT,
                d: match last {
                    Some(n) => Some(JsonValue::Int(n)),
                    None => None,
                },
            },
            WsMessageType::Identify { token, os, browser, device } => {
                let mut props: Vec<(String, JsonValue)> = Vec::new();
                push_member(&mut props, "os", JsonValue::Str(os));
                push_member(&mut props, "browser", JsonValue::Str(browser));
                push_member(&mut props, "device", JsonValue::Str(device));
                proof {
                    lemma_object_view(props);
                }
                let props = JsonValue::Object(props);
                let mut body: Vec<(String, JsonValue)> = Vec::new();
                push_member(&mut body, "token", JsonValue::Str(token));
                push_member(&mut body, "properties", props);
                proof {
                    lemma_object_view(body);
                }
                let d = JsonValue::Object(body);
                assert(props@->Object_0 =~= command_payload(c)->0->Object_0[1].1->Object_0);
                assert(d@->Object_0 =~= command_payload(c)->0->Object_0);
                WsMessage { t: None, s: None, op: OP_IDENTIFY, d: Some(d) }
            },
            WsMessageType::UpdateVoiceState { guild_id, channel_id, self_mute, self_deaf } => {
                let mut body: Vec<(String, JsonValue)> = Vec::new();
                push_member(&mut body, "guild_id", JsonValue::Str(guild_id));
                let ch = match channel_id {
                    Some(ch) => JsonValue::Str(ch),
                    None => JsonValue::Null,
                };
                push_member(&mut body, "channel_id", ch);
                push_member(&mut body, "self_mute", JsonValue::Bool(self_mute));
                push_member(&mut body, "self_deaf", JsonValue::Bool(self_deaf));
                proof {
                    lemma_object_view(body);
                }
                let d = JsonValue::Object(body);
                assert(d@->Object_0 =~= command_payload(c)->0->Object_0);
                WsMessage { t: None, s: None, op: OP_VOICE_STATE_UPDATE, d: Some(d) }
            },
            WsMessageType::UpdatePresence { since, activities, status, afk } => {
                let mut body: Vec<(String, JsonValue)> = Vec::new();
                let since_value = match since {
                    Some(n) => JsonValue::Int(n),
                    None => JsonValue::Null,
                };
                push_member(&mut body, "since", since_value);
                let acts = match activities {
                    Some(a) => JsonValue::Array(a),
                    None => JsonValue::Array(Vec::new()),
                };
                assert(acts@ == command_payload(c)->0->Object_0[1].1) by {
                    if activities is None {
                        assert(acts@->Array_0 =~= Seq::<Json>::empty());
                    }
                }
                push_member(&mut body, "activities", acts);
                push_member(&mut body, "status", JsonValue::Str(status));
                push_member(&mut body, "afk", JsonValue::Bool(afk));
                proof {
                    lemma_object_view(body);
                }
                let d = JsonValue::Object(body);
                assert(d@->Object_0 =~= command_payload(c)->0->Object_0);
                WsMessage { t: None, s: None, op: OP_PRESENCE_UPDATE, d: Some(d) }
            },
        }
    }
}

/// The text sent on the socket for a command. It cannot fail.
pub fn encode(cmd: WsMessageType) -> (r: String)
    ensures
        r@ == written_text(envelope_json(command_envelope(cmd))),
{
    let m = cmd.into_ws_message();
    write_json(&m.to_json())
}

/// Reading back the JSON object of a frame gives the frame, provided its
/// payload, if present, is not `null` (a `null` payload reads as none).
pub proof fn lemma_envelope_round_trip(e: Envelope)
    requires
        e.d != Some(Json::Null),
    ensures
        envelope_from_json(envelope_json(e)) == Some(e),
{
    reveal_strlit("t");
    reveal_strlit("s");
    reveal_strlit("op");
    reveal_strlit("d");
    let ts: Seq<(Seq<char>, Json)> = match e.t {
        Some(t) => seq![("t"@, Json::Str(t))],
        None => Seq::empty(),
    };
    let ss: Seq<(Seq<char>, Json)> = match e.s {
        Some(n) => seq![("s"@, Json::Int(n))],
        None => Seq::empty(),
    };
    let ds: Seq<(Seq<char>, Json)> = match e.d {
        Some(d) => seq![("d"@, d)],
        None => Seq::empty(),
    };
    assert("t"@ != "s"@) by {
        assert("t"@[0] != "s"@[0]);
    }
    assert("t"@ != "d"@) by {
        assert("t"@[0] != "d"@[0]);
    }
    assert("s"@ != "d"@) by {
        assert("s"@[0] != "d"@[0]);
    }
    assert("op"@.len() != "t"@.len());
    let j = envelope_json(e);
    let fs = j->Object_0;
    let nt = ts.len() as int;
    let ns = ss.len() as int;
    assert(fs == ts + ss + seq![("op"@, Json::Int(e.op))] + ds);
    assert(fs.len() == nt + ns + 1 + ds.len());
    assert forall|i: int| 0 <= i < fs.len() implies {
        &&& (i < nt ==> fs[i].0 == "t"@)
        &&& (nt <= i < nt + ns ==> fs[i].0 == "s"@)
        &&& (i == nt + ns ==> fs[i] == ("op"@, Json::Int(e.op)))
        &&& (i > nt + ns ==> fs[i].0 == "d"@ && Some(fs[i].1) == e.d)
        &&& (i < nt ==> Some(Json::Str(e.t->0)) == Some(fs[i].1))
        &&& (nt <= i < nt + ns ==> fs[i].1 == Json::Int(e.s->0))
    } by {
        if i < nt + ns + 1 {
            assert(fs[i] == (ts + ss + seq![("op"@, Json::Int(e.op))])[i]);
            if i < nt + ns {
                assert(fs[i] == (ts + ss)[i]);
            }
        }
    }
    lemma_lookup_found(fs, "op"@, nt + ns, 0);
    if e.t is Some {
        lemma_lookup_found(fs, "t"@, 0, 0);
    } else {
        lemma_lookup_missing(fs, "t"@, 0);
    }
    if e.s is Some {
        lemma_lookup_found(fs, "s"@, nt, 0);
    } else {
        lemma_lookup_missing(fs, "s"@, 0);
    }
    if e.d is Some {
        lemma_lookup_found(fs, "d"@, nt + ns + 1, 0);
    } else {
        lemma_lookup_missing(fs, "d"@, 0);
    }
    assert(int_member(j, "op"@) == Some(e.op));
    assert(opt_int_member(j, "s"@) == Some(e.s));
    assert(opt_str_member(j, "t"@) == Some(e.t));
    assert(any_member(j, "d"@) == e.d);
}

/// For every command, reading back the JSON object of its frame gives the
/// same frame: the same opcode and the same payload.
pub proof fn lemma_command_round_trip(cmd: WsMessageType)
    ensures
        envelope_from_json(envelope_json(command_envelope(cmd))) == Some(command_envelope(cmd)),
        command_envelope(cmd).op == command_opcode(cmd),
{
    lemma_envelope_round_trip(command_envelope(cmd));
}

} // verus!
