//! Requests to the remote event store: the method, the path, the
//! credential and the body of each call, as plain values.
use vstd::prelude::*;
use vstd::string::*;

use crate::admin::Direction;
use crate::board::{BoardPostEventContent, BoardReplyEventContent, RelationKind};

verus! {

/// Prefix of every room-scoped path of the client API.
pub const CLIENT_ROOMS: &'static str = "/_matrix/client/v3/rooms/";

/// Relation kind segment that stands for an implicit reference.
pub const IN_REPLY_TO: &'static str = "m.in_reply_to";

#[derive(Clone, Copy, Debug, PartialEq, Eq, Structural)]
pub enum Method {
    Get,
    Put,
    Post,
    Delete,
}

/// Paging of a relations query.
#[derive(Clone, Debug)]
pub struct RelationsParams {
    pub from: Option<String>,
    pub to: Option<String>,
    pub limit: Option<u64>,
    pub direction: Option<Direction>,
}

/// Identifier of the event that the store created.
#[derive(Clone, Debug)]
pub struct SendEventResponse(pub String);

/// One page of related events.
#[derive(Clone, Debug)]
pub struct RelationsResponse<T> {
    pub chunk: Vec<T>,
    pub prev_batch: Option<String>,
    pub next_batch: Option<String>,
}

/// An annotation of `event_id` with a short key, as a reaction carries it.
#[derive(Clone, Debug)]
pub struct Annotation {
    pub event_id: String,
    pub key: String,
}

/// A request to strip the content of `redacts`.
#[derive(Clone, Debug)]
pub struct RedactionEventContent {
    pub redacts: String,
    pub reason: Option<String>,
}

/// What a request sends.
#[derive(Clone, Debug)]
pub enum RequestBody {
    Empty,
    Post(BoardPostEventContent),
    Reply(BoardReplyEventContent),
    Reaction(Annotation),
    Redaction(RedactionEventContent),
    /// State content, as JSON text.
    State(String),
}

/// One call to the remote store, made with the caller's own credential.
#[derive(Clone, Debug)]
pub struct Request {
    pub method: Method,
    pub path: String,
    pub access_token: String,
    pub query: Option<RelationsParams>,
    pub body: RequestBody,
}

pub open spec fn room_path(room: Seq<char>) -> Seq<char> {
    CLIENT_ROOMS@ + room
}

pub open spec fn send_path(room: Seq<char>, event_type: Seq<char>, txn: Seq<char>) -> Seq<char> {
    room_path(room) + "/send/"@ + event_type + "/"@ + txn
}

pub open spec fn state_path(room: Seq<char>, event_type: Seq<char>, state_key: Seq<char>) -> Seq<char> {
    room_path(room) + "/state/"@ + event_type + "/"@ + state_key
}

pub open spec fn redact_path(room: Seq<char>, event_id: Seq<char>, txn: Seq<char>) -> Seq<char> {
    room_path(room) + "/redact/"@ + event_id + "/"@ + txn
}

pub open spec fn event_path(room: Seq<char>, event_id: Seq<char>) -> Seq<char> {
    room_path(room) + "/event/"@ + event_id
}

pub open spec fn relation_kind_name(k: RelationKind) -> Seq<char> {
    match k {
        RelationKind::Annotation => "m.annotation"@,
        RelationKind::Reference => "m.reference"@,
        RelationKind::Replacement => "m.replace"@,
        RelationKind::Thread => "m.thread"@,
    }
}

/// Path of a relations query: the kind segment where a kind filter is
/// given (an implicit reference where that filter holds no kind), then the
/// event type segment where an event type filter is given.
pub open spec fn relations_path(
    room: Seq<char>,
    event_id: Seq<char>,
    rel_type: Option<Option<RelationKind>>,
    event_type: Option<Seq<char>>,
) -> Seq<char> {
    let base = room_path(room) + "/relations/"@ + event_id;
    let with_kind = match rel_type {
        Some(Some(k)) => base + "/"@ + relation_kind_name(k),
        Some(None) => base + "/"@ + IN_REPLY_TO@,
        None => base,
    };
    match event_type {
        Some(t) => with_kind + "/"@ + t,
        None => with_kind,
    }
}

impl RelationKind {
    /// The wire name of this relation kind.
    pub fn as_str(&self) -> (r: &'static str)
        ensures
            r@ == relation_kind_name(*self),
    {
        match self {
            RelationKind::Annotation => "m.annotation",
            RelationKind::Reference => "m.reference",
            RelationKind::Replacement => "m.replace",
            RelationKind::Thread => "m.thread",
        }
    }
}

fn room_prefix(room: &str) -> (r: String)
    ensures
        r@ == room_path(room@),
{
    let mut p = String::from_str(CLIENT_ROOMS);
    p.append(room);
    p
}

/// Request shapes of the client API's event endpoints.
pub struct Events;

impl Events {
    /// Sends `content` as a new event of `event_type` in `room_id`, under
    /// the idempotency token `txn_id`.
    pub fn send_message(
        access_token: &str,
        event_type: &str,
        content: RequestBody,
        room_id: &str,
        txn_id: &str,
    ) -> (r: Request)
        ensures
            r.method == Method::Put,
            r.path@ == send_path(room_id@, event_type@, txn_id@),
            r.access_token@ == access_token@,
            r.query.is_none(),
            r.body == content,
    {
        let mut path = room_prefix(room_id);
        path.append("/send/");
        path.append(event_type);
        path.append("/");
        path.append(txn_id);
        Request {
            method: Method::Put,
            path,
            access_token: String::from_str(access_token),
            query: None,
            body: content,
        }
    }

    /// Stores `content` (JSON text) as the board state of `event_type`
    /// under `state_key`.
    pub fn send_state(
        access_token: &str,
        event_type: &str,
        content: String,
        room_id: &str,
        state_key: &str,
    ) -> (r: Request)
        ensures
            r.method == Method::Put,
            r.path@ == state_path(room_id@, event_type@, state_key@),
            r.access_token@ == access_token@,
            r.query.is_none(),
            r.body == RequestBody::State(content),
    {
        let mut path = room_prefix(room_id);
        path.append("/state/");
        path.append(event_type);
        path.append("/");
        path.append(state_key);
        Request {
            method: Method::Put,
            path,
            access_token: String::from_str(access_token),
            query: None,
            body: RequestBody::State(content),
        }
    }

    /// Asks for the content of `event_id` to be stripped.
    pub fn send_redaction(
        access_token: &str,
        room_id: &str,
        event_id: &str,
        txn_id: &str,
        reason: Option<String>,
    ) -> (r: Request)
        ensures
            r.method == Method::Put,
            r.path@ == redact_path(room_id@, event_id@, txn_id@),
            r.access_token@ == access_token@,
            r.query.is_none(),
            match r.body {
                RequestBody::Redaction(c) => c.redacts@ == event_id@ && c.reason == reason,
                _ => false,
            },
    {
        let mut path = room_prefix(room_id);
        path.append("/redact/");
        path.append(event_id);
        path.append("/");
        path.append(txn_id);
        let content = RedactionEventContent { redacts: String::from_str(event_id), reason };
        Request {
            method: Method::Put,
            path,
            access_token: String::from_str(access_token),
            query: None,
            body: RequestBody::Redaction(content),
        }
    }

    /// Fetches the one event `event_id`.
    pub fn get_one(access_token: &str, room_id: &str, event_id: &str) -> (r: Request)
        ensures
            r.method == Method::Get,
            r.path@ == event_path(room_id@, event_id@),
            r.access_token@ == access_token@,
            r.query.is_none(),
            r.body == RequestBody::Empty,
    {
        let mut path = room_prefix(room_id);
        path.append("/event/");
        path.append(event_id);
        Request {
            method: Method::Get,
            path,
            access_token: String::from_str(access_token),
            query: None,
            body: RequestBody::Empty,
        }
    }

    /// Fetches the events that relate to `event_id`, filtered by relation
    /// kind and by event type where those filters are given.
    pub fn get_relations(
        access_token: &str,
        room_id: &str,
        event_id: &str,
        rel_type: Option<Option<RelationKind>>,
        event_type: Option<&str>,
        params: RelationsParams,
    ) -> (r: Request)
        ensures
            r.method == Method::Get,
            r.path@ == relations_path(
                room_id@,
                event_id@,
                rel_type,
                match event_type {
                    Some(t) => Some(t@),
                    None => None,
                },
            ),
            r.access_token@ == access_token@,
            r.query == Some(params),
            r.body == RequestBody::Empty,
    {
        let mut path = room_prefix(room_id);
        path.append("/relations/");
        path.append(event_id);
        match rel_type {
            Some(Some(k)) => {
                path.append("/");
                path.append(k.as_str());
            },
            Some(None) => {
                path.append("/");
                path.append(IN_REPLY_TO);
            },
            None => {},
        }
        match event_type {
            Some(t) => {
                path.append("/");
                path.append(t);
            },
            None => {},
        }
        Request {
            method: Method::Get,
            path,
            access_token: String::from_str(access_token),
            query: Some(params),
            body: RequestBody::Empty,
        }
    }
}

} // verus!
