//! Request shapes of the server's room administration API, and the values
//! it answers with.
use vstd::prelude::*;
use vstd::string::*;

use crate::events::Method;
use crate::service::RawEvent;

verus! {

/// Prefix of every room path of the administration API.
pub const ADMIN_ROOMS: &'static str = "/_synapse/admin/v1/rooms";

/// Direction of a paged listing.
#[derive(Clone, Copy, Debug, PartialEq, Eq, Structural)]
pub enum Direction {
    Forward,
    Backward,
}

impl Direction {
    /// The wire name: `"f"` or `"b"`.
    pub fn as_str(&self) -> (r: &'static str)
        ensures
            r@ == (match self {
                Direction::Forward => "f"@,
                Direction::Backward => "b"@,
            }),
    {
        match self {
            Direction::Forward => "f",
            Direction::Backward => "b",
        }
    }
}

/// Sort key of a room listing.
#[derive(Clone, Copy, Debug, PartialEq, Eq, Structural)]
pub enum OrderBy {
    Name,
    CanonicalAlias,
    JoinedMembers,
    JoinedLocalMembers,
    Version,
    Creator,
    Encryption,
    Federatable,
    Public,
    JoinRules,
    GuestAccess,
    HistoryVisibility,
    StateEvents,
}

pub open spec fn order_by_name(o: OrderBy) -> Seq<char> {
    match o {
        OrderBy::Name => "name"@,
        OrderBy::CanonicalAlias => "canonical_alias"@,
        OrderBy::JoinedMembers => "joined_members"@,
        OrderBy::JoinedLocalMembers => "joined_local_members"@,
        OrderBy::Version => "version"@,
        OrderBy::Creator => "creator"@,
        OrderBy::Encryption => "encryption"@,
        OrderBy::Federatable => "federatable"@,
        OrderBy::Public => "public"@,
        OrderBy::JoinRules => "join_rules"@,
        OrderBy::GuestAccess => "guest_access"@,
        OrderBy::HistoryVisibility => "history_visibility"@,
        OrderBy::StateEvents => "state_events"@,
    }
}

impl OrderBy {
    /// The wire name, in snake case.
    pub fn as_str(&self) -> (r: &'static str)
        ensures
            r@ == order_by_name(*self),
    {
        match self {
            OrderBy::Name => "name",
            OrderBy::CanonicalAlias => "canonical_alias",
            OrderBy::JoinedMembers => "joined_members",
            OrderBy::JoinedLocalMembers => "joined_local_members",
            OrderBy::Version => "version",
            OrderBy::Creator => "creator",
            OrderBy::Encryption => "encryption",
            OrderBy::Federatable => "federatable",
            OrderBy::Public => "public",
            OrderBy::JoinRules => "join_rules",
            OrderBy::GuestAccess => "guest_access",
            OrderBy::HistoryVisibility => "history_visibility",
            OrderBy::StateEvents => "state_events",
        }
    }
}

/// Paging and filtering of a room listing.
#[derive(Clone, Debug)]
pub struct ListParams {
    pub from: Option<u64>,
    pub limit: Option<u64>,
    pub order_by: Option<OrderBy>,
    pub direction: Option<Direction>,
    pub search_term: Option<String>,
}

/// A room as the administration API lists it.
#[derive(Clone, Debug)]
pub struct Room {
    pub room_id: String,
    pub name: Option<String>,
    pub canonical_alias: Option<String>,
    pub joined_members: u64,
    pub joined_local_members: u64,
    pub version: Option<String>,
    pub creator: Option<String>,
    pub encryption: Option<String>,
    pub federatable: bool,
    pub public: bool,
    pub join_rules: Option<String>,
    pub guest_access: Option<String>,
    pub history_visibility: Option<String>,
    pub state_events: u64,
    pub room_type: Option<String>,
    pub details: Option<RoomExt>,
}

#[derive(Clone, Debug)]
pub struct ListResponse {
    pub rooms: Vec<Room>,
    pub offset: Option<u64>,
    pub total_rooms: Option<u64>,
    pub prev_batch: Option<String>,
    pub next_batch: Option<String>,
}

/// Which events a listing keeps.
#[derive(Clone, Debug)]
pub struct RoomEventFilter {
    pub not_types: Vec<String>,
    pub not_rooms: Vec<String>,
    pub limit: Option<u64>,
    pub rooms: Option<Vec<String>>,
    pub not_senders: Vec<String>,
    pub senders: Option<Vec<String>>,
    pub types: Option<Vec<String>>,
    pub include_urls: Option<bool>,
    pub lazy_load_members: Option<bool>,
    pub unread_thread_notifications: bool,
}

#[derive(Clone, Debug)]
pub struct MessagesParams {
    pub from: String,
    pub to: Option<String>,
    pub limit: Option<u64>,
    pub filter: Option<RoomEventFilter>,
    pub direction: Option<Direction>,
}

#[derive(Clone, Debug)]
pub struct EventContextParams {
    pub limit: Option<u64>,
    pub filter: Option<RoomEventFilter>,
}

#[derive(Clone, Debug)]
pub struct EventContextResponse {
    pub start: String,
    pub end: String,
    pub events_before: Vec<RawEvent>,
    pub event: RawEvent,
    pub events_after: Vec<RawEvent>,
    pub state: Vec<RawEvent>,
}

/// The room that replaces a deleted one, and who announces it.
#[derive(Clone, Debug)]
pub struct NewRoomParams {
    pub admin: String,
    pub room_name: String,
    pub message: String,
}

#[derive(Clone, Debug)]
pub struct DeleteParams {
    pub new_room: Option<NewRoomParams>,
    pub block: bool,
    pub purge: bool,
}

#[derive(Clone, Debug)]
pub struct DeleteResponse {
    pub kicked_users: Vec<String>,
    pub failed_to_kick_users: Vec<String>,
    pub local_aliases: Vec<String>,
    pub new_room_id: Option<String>,
}

/// Details that only some room listings carry.
#[derive(Clone, Debug)]
pub struct RoomExt {
    pub avatar: Option<String>,
    pub topic: Option<String>,
    pub joined_local_devices: u64,
    pub forgotten: bool,
}

#[derive(Clone, Debug)]
pub struct MembersResponse {
    pub members: Vec<String>,
    pub total: u64,
}

/// One state entry of a room.
#[derive(Clone, Debug)]
pub struct State {
    pub kind: String,
    pub state_key: String,
    pub etc: Option<bool>,
}

#[derive(Clone, Debug)]
pub struct StateResponse {
    pub state: Vec<State>,
}

#[derive(Clone, Debug)]
pub struct GetEventsResponse<T> {
    pub chunk: T,
    pub start: String,
    pub end: String,
    pub state: Option<Vec<State>>,
}

#[derive(Clone, Debug)]
pub struct TimestampToEventParams {
    pub ts: Option<u64>,
    pub direction: Option<Direction>,
}

#[derive(Clone, Debug)]
pub struct TimestampToEventResponse {
    pub event_id: String,
    pub origin_server_ts: u64,
}

#[derive(Clone, Debug)]
pub struct ForwardExtremities {
    pub event_id: String,
    pub state_group: u64,
    pub depth: u64,
    pub received_ts: u64,
}

#[derive(Clone, Debug)]
pub struct CheckForwardExtremitiesResponse {
    pub count: u64,
    pub result: Vec<ForwardExtremities>,
}

#[derive(Clone, Debug)]
pub struct DeleteForwardExtremitiesResponse {
    pub deleted: u64,
}

/// A call of the administration API; it runs under the server admin's
/// own credential, which the client holds.
#[derive(Clone, Debug)]
pub struct AdminCall {
    pub method: Method,
    pub path: String,
}

pub open spec fn admin_room_path(room: Seq<char>) -> Seq<char> {
    ADMIN_ROOMS@ + "/"@ + room
}

fn admin_call(method: Method, room_id: &str, suffix: &str) -> (r: AdminCall)
    ensures
        r.method == method,
        r.path@ == admin_room_path(room_id@) + suffix@,
{
    let mut path = String::from_str(ADMIN_ROOMS);
    path.append("/");
    path.append(room_id);
    path.append(suffix);
    AdminCall { method, path }
}

/// Room administration calls.
pub struct RoomService;

impl RoomService {
    /// Details of one room.
    pub fn get_one(room_id: &str) -> (r: AdminCall)
        ensures
            r.method == Method::Get,
            r.path@ == admin_room_path(room_id@),
    {
        proof {
            reveal_strlit("");
        }
        let r = admin_call(Method::Get, room_id, "");
        assert(r.path@ == admin_room_path(room_id@));
        r
    }

    /// All rooms, paged by the listing parameters sent as the query.
    pub fn get_all() -> (r: AdminCall)
        ensures
            r.method == Method::Get,
            r.path@ == ADMIN_ROOMS@,
    {
        AdminCall { method: Method::Get, path: String::from_str(ADMIN_ROOMS) }
    }

    /// Members of a room.
    pub fn get_members(room_id: &str) -> (r: AdminCall)
        ensures
            r.method == Method::Get,
            r.path@ == admin_room_path(room_id@) + "/members"@,
    {
        admin_call(Method::Get, room_id, "/members")
    }

    /// State events of a room.
    pub fn get_state(room_id: &str) -> (r: AdminCall)
        ensures
            r.method == Method::Get,
            r.path@ == admin_room_path(room_id@) + "/state"@,
    {
        admin_call(Method::Get, room_id, "/state")
    }

    /// The event closest to a timestamp, sent as the query.
    pub fn get_timestamp_to_event(room_id: &str) -> (r: AdminCall)
        ensures
            r.method == Method::Get,
            r.path@ == admin_room_path(room_id@) + "/timestamp_to_event"@,
    {
        admin_call(Method::Get, room_id, "/timestamp_to_event")
    }

    /// Status of a room's forward extremities.
    pub fn check_forward_extremities(room_id: &str) -> (r: AdminCall)
        ensures
            r.method == Method::Get,
            r.path@ == admin_room_path(room_id@) + "/forward_extremities"@,
    {
        admin_call(Method::Get, room_id, "/forward_extremities")
    }

    /// Deletes a room's forward extremities.
    pub fn delete_forward_extremities(room_id: &str) -> (r: AdminCall)
        ensures
            r.method == Method::Delete,
            r.path@ == admin_room_path(room_id@) + "/forward_extremities"@,
    {
        admin_call(Method::Delete, room_id, "/forward_extremities")
    }

    /// Removes a room from the server.
    pub fn delete_room(room_id: &str) -> (r: AdminCall)
        ensures
            r.method == Method::Delete,
            r.path@ == admin_room_path(room_id@),
    {
        proof {
            reveal_strlit("");
        }
        let r = admin_call(Method::Delete, room_id, "");
        assert(r.path@ == admin_room_path(room_id@));
        r
    }

    /// Messages of a room in a time frame, sent as the query.
    pub fn get_room_events(room_id: &str) -> (r: AdminCall)
        ensures
            r.method == Method::Get,
            r.path@ == admin_room_path(room_id@) + "/messages"@,
    {
        admin_call(Method::Get, room_id, "/messages")
    }

    /// Context of an event.
    pub fn get_event_context(room_id: &str, event_id: &str) -> (r: AdminCall)
        ensures
            r.method == Method::Get,
            r.path@ == admin_room_path(room_id@) + "/context/"@ + event_id@,
    {
        let mut r = admin_call(Method::Get, room_id, "/context/");
        r.path.append(event_id);
        r
    }
}

} // verus!
