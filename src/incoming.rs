//! Events the gateway sends, read from a frame by its opcode and event name.
use vstd::prelude::*;
use crate::api_schema::{opt_int_view, opt_json_view, opt_str_view, Envelope, WsMessage, OP_DISPATCH, OP_HELLO};
use crate::json::{
    copy_json, field, get_field, get_int, get_opt_int, get_opt_str, get_str, int_member,
    opt_int_member, opt_str_member, str_eq, str_member, Json, JsonValue,
};

verus! {

/// The public part of an account, as events carry it.
#[derive(Debug)]
pub struct DumbUser {
    pub id: String,
    pub username: Option<String>,
    pub public_flags: Option<i64>,
    pub global_name: Option<String>,
    pub discriminator: Option<String>,
    pub avatar: Option<String>,
}

/// A guild as the handshake's completion lists it.
#[derive(Debug)]
pub struct ReadyGuild {
    pub id: String,
    pub name: Option<String>,
}

/// An event of the gateway.
#[derive(Debug)]
pub enum IncomingWsEvent {
    /// Start of the handshake, with the heartbeat interval in milliseconds.
    Hello { heartbeat_interval: i64 },
    /// End of the handshake.
    Ready { session_id: String, guilds: Vec<ReadyGuild>, resume_gateway_url: String },
    /// A member's presence changed.
    PresenceUpdate { user: DumbUser, status: String, guild_id: String },
    /// Any other frame, or one whose payload does not have its kind's shape;
    /// it carries the frame's opcode, name and payload.
    Unrecognized { op: i64, t: Option<String>, d: Option<JsonValue> },
}

/// The kinds of event, chosen by opcode and event name alone.
pub enum EventKind {
    Hello,
    Ready,
    PresenceUpdate,
    Other,
}

pub open spec fn event_kind(e: Envelope) -> EventKind {
    if e.op == OP_HELLO as int {
        EventKind::Hello
    } else if e.op == OP_DISPATCH as int && e.t == Some("READY"@) {
        EventKind::Ready
    } else if e.op == OP_DISPATCH as int && e.t == Some("PRESENCE_UPDATE"@) {
        EventKind::PresenceUpdate
    } else {
        EventKind::Other
    }
}

pub open spec fn user_shape(j: Json) -> bool {
    &&& str_member(j, "id"@) is Some
    &&& opt_str_member(j, "username"@) is Some
    &&& opt_int_member(j, "public_flags"@) is Some
    &&& opt_str_member(j, "global_name"@) is Some
    &&& opt_str_member(j, "discriminator"@) is Some
    &&& opt_str_member(j, "avatar"@) is Some
}

pub open spec fn user_matches(j: Json, u: DumbUser) -> bool {
    &&& str_member(j, "id"@) == Some(u.id@)
    &&& opt_str_member(j, "username"@) == Some(opt_str_view(u.username))
    &&& opt_int_member(j, "public_flags"@) == Some(opt_int_view(u.public_flags))
    &&& opt_str_member(j, "global_name"@) == Some(opt_str_view(u.global_name))
    &&& opt_str_member(j, "discriminator"@) == Some(opt_str_view(u.discriminator))
    &&& opt_str_member(j, "avatar"@) == Some(opt_str_view(u.avatar))
}

pub open spec fn guild_shape(j: Json) -> bool {
    &&& str_member(j, "id"@) is Some
    &&& opt_str_member(j, "name"@) is Some
}

pub open spec fn guild_matches(j: Json, g: ReadyGuild) -> bool {
    &&& str_member(j, "id"@) == Some(g.id@)
    &&& opt_str_member(j, "name"@) == Some(opt_str_view(g.name))
}

/// A list of guilds: an array whose every item has a guild's shape.
pub open spec fn guilds_shape(j: Json) -> bool {
    &&& j is Array
    &&& forall|i: int| 0 <= i < j->Array_0.len() ==> #[trigger] guild_shape(j->Array_0[i])
}

pub open spec fn guilds_match(j: Json, gs: Seq<ReadyGuild>) -> bool {
    &&& j is Array
    &&& j->Array_0.len() == gs.len()
    &&& forall|i: int| 0 <= i < gs.len() ==> #[trigger] guild_matches(j->Array_0[i], gs[i])
}

pub open spec fn ready_shape(d: Json) -> bool {
    &&& str_member(d, "session_id"@) is Some
    &&& str_member(d, "resume_gateway_url"@) is Some
    &&& field(d, "guilds"@) matches Some(g) && guilds_shape(g)
}

pub open spec fn presence_shape(d: Json) -> bool {
    &&& field(d, "user"@) matches Some(u) && user_shape(u)
    &&& str_member(d, "status"@) is Some
    &&& str_member(d, "guild_id"@) is Some
}

/// The frame's payload has the shape that its kind asks for.
pub open spec fn well_shaped(e: Envelope) -> bool {
    match event_kind(e) {
        EventKind::Hello => e.d matches Some(d) && int_member(d, "heartbeat_interval"@) is Some,
        EventKind::Ready => e.d matches Some(d) && ready_shape(d),
        EventKind::PresenceUpdate => e.d matches Some(d) && presence_shape(d),
        EventKind::Other => false,
    }
}

/// `ev` is the event that the frame `e` holds.
pub open spec fn event_matches(e: Envelope, ev: IncomingWsEvent) -> bool {
    match ev {
        IncomingWsEvent::Hello { heartbeat_interval } => {
            &&& event_kind(e) is Hello
            &&& e.d matches Some(d) && int_member(d, "heartbeat_interval"@) == Some(
                heartbeat_interval as int,
            )
        },
        IncomingWsEvent::Ready { session_id, guilds, resume_gateway_url } => {
            &&& event_kind(e) is Ready
            &&& e.d matches Some(d) && {
                &&& str_member(d, "session_id"@) == Some(session_id@)
                &&& str_member(d, "resume_gateway_url"@) == Some(resume_gateway_url@)
                &&& field(d, "guilds"@) matches Some(g) && guilds_match(g, guilds@)
            }
        },
        IncomingWsEvent::PresenceUpdate { user, status, guild_id } => {
            &&& event_kind(e) is PresenceUpdate
            &&& e.d matches Some(d) && {
                &&& field(d, "user"@) matches Some(u) && user_matches(u, user)
                &&& str_member(d, "status"@) == Some(status@)
                &&& str_member(d, "guild_id"@) == Some(guild_id@)
            }
        },
        IncomingWsEvent::Unrecognized { op, t, d } => {
            &&& !well_shaped(e)
            &&& op as int == e.op
            &&& opt_str_view(t) == e.t
            &&& opt_json_view(d) == e.d
        },
    }
}

impl DumbUser {
    /// Reads an account out of a JSON object.
    pub fn from_json(j: &JsonValue) -> (r: Option<DumbUser>)
        ensures
            r is Some <==> user_shape(j@),
            r matches Some(u) ==> user_matches(j@, u),
    {
        let id = get_str(j, "id");
        let username = get_opt_str(j, "username");
        let public_flags = get_opt_int(j, "public_flags");
        let global_name = get_opt_str(j, "global_name");
        let discriminator = get_opt_str(j, "discriminator");
        let avatar = get_opt_str(j, "avatar");
        match (id, username, public_flags, global_name, discriminator, avatar) {
            (Some(id), Some(username), Some(public_flags), Some(global_name), Some(discriminator), Some(avatar)) => {
                Some(DumbUser { id, username, public_flags, global_name, discriminator, avatar })
            },
            _ => None,
        }
    }
}

impl ReadyGuild {
    /// Reads a guild out of a JSON object.
    pub fn from_json(j: &JsonValue) -> (r: Option<ReadyGuild>)
        ensures
            r is Some <==> guild_shape(j@),
            r matches Some(g) ==> guild_matches(j@, g),
    {
        let id = get_str(j, "id");
        let name = get_opt_str(j, "name");
        match (id, name) {
            (Some(id), Some(name)) => Some(ReadyGuild { id, name }),
            _ => None,
        }
    }
}

/// Reads a list of guilds; it takes every entry there is, however many.
pub fn guilds_from_json(j: &JsonValue) -> (r: Option<Vec<ReadyGuild>>)
    ensures
        r is Some <==> guilds_shape(j@),
        r matches Some(gs) ==> guilds_match(j@, gs@),
{
    match j {
        JsonValue::Array(items) => {
            let mut out: Vec<ReadyGuild> = Vec::new();
            let mut i: usize = 0;
            while i < items.len()
                invariant
                    *j == JsonValue::Array(*items),
                    i <= items.len(),
                    out.len() == i,
                    j@->Array_0.len() == items.len(),
                    forall|k: int| 0 <= k < items.len() ==> #[trigger] j@->Array_0[k] == items[k]@,
                    forall|k: int| 0 <= k < i ==> #[trigger] guild_shape(j@->Array_0[k]),
                    forall|k: int| 0 <= k < i ==> #[trigger] guild_matches(j@->Array_0[k], out[k]),
                decreases items.len() - i,
            {
                assert(j@->Array_0[i as int] == items[i as int]@);
                match ReadyGuild::from_json(&items[i]) {
                    Some(g) => {
                        out.push(g);
                    },
                    None => {
                        return None;
                    },
                }
                i = i + 1;
            }
            Some(out)
        },
        _ => None,
    }
}

impl IncomingWsEvent {
    /// The event that a frame holds. The kind is chosen by opcode and event
    /// name; a payload without that kind's shape, or a frame of any other
    /// kind, gives `Unrecognized`, never an error.
    pub fn from_message(m: &WsMessage) -> (r: IncomingWsEvent)
        ensures
            event_matches(m@, r),
            !(r is Unrecognized) ==> well_shaped(m@),
    {
        let d = match &m.d {
            Some(d) => d,
            None => {
                return IncomingWsEvent::Unrecognized { op: m.op, t: m.t.clone(), d: None };
            },
        };
        let unrecognized = IncomingWsEvent::Unrecognized {
            op: m.op,
            t: m.t.clone(),
            d: Some(copy_json(d)),
        };
        if m.op == OP_HELLO {
            match get_int(d, "heartbeat_interval") {
                Some(heartbeat_interval) => IncomingWsEvent::Hello { heartbeat_interval },
                None => unrecognized,
            }
        } else if m.op == OP_DISPATCH && m.t.is_some() {
            let t = m.t.as_ref().unwrap();
            if str_eq(t.as_str(), "READY") {
                let session_id = get_str(d, "session_id");
                let resume_gateway_url = get_str(d, "resume_gateway_url");
                let guilds = match get_field(d, "guilds") {
                    Some(g) => guilds_from_json(g),
                    None => None,
                };
                match (session_id, guilds, resume_gateway_url) {
                    (Some(session_id), Some(guilds), Some(resume_gateway_url)) => {
                        IncomingWsEvent::Ready { session_id, guilds, resume_gateway_url }
                    },
                    _ => unrecognized,
                }
            } else if str_eq(t.as_str(), "PRESENCE_UPDATE") {
                let user = match get_field(d, "user") {
                    Some(u) => DumbUser::from_json(u),
                    None => None,
                };
                let status = get_str(d, "status");
                let guild_id = get_str(d, "guild_id");
                match (user, status, guild_id) {
                    (Some(user), Some(status), Some(guild_id)) => {
                        IncomingWsEvent::PresenceUpdate { user, status, guild_id }
                    },
                    _ => unrecognized,
                }
            } else {
                unrecognized
            }
        } else {
            unrecognized
        }
    }
}

} // verus!
