//! Room lifecycle calls: create, join, archive and leave, each made with
//! the caller's own credential.
use vstd::prelude::*;
use vstd::string::*;

use crate::service::ClientConfig;

verus! {

#[derive(Clone, Debug)]
pub struct CreateRoomDto {
    pub name: Option<String>,
    pub topic: Option<String>,
    pub alias: Option<String>,
}

#[derive(Clone, Debug)]
pub struct CreateDirectRoomDto {
    pub invitee: String,
}

#[derive(Clone, Debug)]
pub struct JoinRoomDto {
    pub alias_or_id: String,
    pub reason: Option<String>,
}

#[derive(Clone, Debug)]
pub struct ArchiveRoomDto {
    pub room_id: String,
    pub reason: Option<String>,
}

#[derive(Clone, Debug)]
pub struct LeaveRoomDto {
    pub room_id: String,
    pub reason: Option<String>,
}

/// Who may join a new room and how it is shown.
#[derive(Clone, Copy, Debug, PartialEq, Eq, Structural)]
pub enum RoomPreset {
    PublicChat,
    PrivateChat,
    TrustedPrivateChat,
}

/// Body of a room creation.
#[derive(Clone, Debug)]
pub struct CreateRoomBody {
    pub federate: bool,
    pub preset: RoomPreset,
    pub name: String,
    pub room_alias_name: String,
    pub topic: String,
    pub is_direct: bool,
    pub invite: Vec<String>,
}

/// A room lifecycle action.
#[derive(Clone, Debug)]
pub enum RoomAction {
    Create(CreateRoomBody),
    Join { alias_or_id: String, reason: String },
    Forget { room_id: String, reason: String },
    Leave { room_id: String, reason: String },
}

/// A room lifecycle call under the caller's credential.
#[derive(Clone, Debug)]
pub struct RoomRequest {
    pub access_token: String,
    pub action: RoomAction,
}

/// A room that a call created or joined.
#[derive(Clone, Debug)]
pub struct Room {
    pub room_id: String,
}

/// The text of an optional field, empty where it is absent.
pub open spec fn text_or_empty(o: Option<String>) -> Seq<char> {
    match o {
        Some(s) => s@,
        None => Seq::empty(),
    }
}

fn or_empty(o: Option<String>) -> (r: String)
    ensures
        r@ == text_or_empty(o),
{
    match o {
        Some(s) => s,
        None => String::new(),
    }
}

/// Whether `b` creates an unfederated room with `preset` from `dto`.
pub open spec fn is_room_creation(b: CreateRoomBody, preset: RoomPreset, dto: CreateRoomDto) -> bool {
    &&& !b.federate
    &&& b.preset == preset
    &&& b.name@ == text_or_empty(dto.name)
    &&& b.room_alias_name@ == text_or_empty(dto.alias)
    &&& b.topic@ == text_or_empty(dto.topic)
    &&& !b.is_direct
    &&& b.invite@.len() == 0
}

pub struct RoomService {
    admin: ClientConfig,
}

impl RoomService {
    pub closed spec fn config(&self) -> ClientConfig {
        self.admin
    }

    pub fn new(admin: ClientConfig) -> (r: Self)
        ensures
            r.config() == admin,
    {
        RoomService { admin }
    }

    fn creation(preset: RoomPreset, dto: CreateRoomDto) -> (r: CreateRoomBody)
        ensures
            is_room_creation(r, preset, dto),
    {
        CreateRoomBody {
            federate: false,
            preset,
            name: or_empty(dto.name),
            room_alias_name: or_empty(dto.alias),
            topic: or_empty(dto.topic),
            is_direct: false,
            invite: Vec::new(),
        }
    }

    /// Creates a public, unfederated room.
    pub fn create_public_room(&self, access_token: &str, dto: CreateRoomDto) -> (r: RoomRequest)
        ensures
            r.access_token@ == access_token@,
            match r.action {
                RoomAction::Create(b) => is_room_creation(b, RoomPreset::PublicChat, dto),
                _ => false,
            },
    {
        let body = Self::creation(RoomPreset::PublicChat, dto);
        RoomRequest { access_token: String::from_str(access_token), action: RoomAction::Create(body) }
    }

    /// Creates a private, unfederated room.
    pub fn create_hidden_room(&self, access_token: &str, dto: CreateRoomDto) -> (r: RoomRequest)
        ensures
            r.access_token@ == access_token@,
            match r.action {
                RoomAction::Create(b) => is_room_creation(b, RoomPreset::PrivateChat, dto),
                _ => false,
            },
    {
        let body = Self::creation(RoomPreset::PrivateChat, dto);
        RoomRequest { access_token: String::from_str(access_token), action: RoomAction::Create(body) }
    }

    /// Creates a direct room with one invitee.
    pub fn create_direct_room(&self, access_token: &str, dto: CreateDirectRoomDto) -> (r: RoomRequest)
        ensures
            r.access_token@ == access_token@,
            match r.action {
                RoomAction::Create(b) => {
                    &&& !b.federate
                    &&& b.preset == RoomPreset::TrustedPrivateChat
                    &&& b.is_direct
                    &&& b.invite@ == seq![dto.invitee]
                    &&& b.name@.len() == 0
                    &&& b.room_alias_name@.len() == 0
                    &&& b.topic@.len() == 0
                },
                _ => false,
            },
    {
        let mut invite = Vec::new();
        invite.push(dto.invitee);
        let body = CreateRoomBody {
            federate: false,
            preset: RoomPreset::TrustedPrivateChat,
            name: String::new(),
            room_alias_name: String::new(),
            topic: String::new(),
            is_direct: true,
            invite,
        };
        RoomRequest { access_token: String::from_str(access_token), action: RoomAction::Create(body) }
    }

    /// Joins a room by identifier or alias.
    pub fn join_room(&self, access_token: &str, dto: JoinRoomDto) -> (r: RoomRequest)
        ensures
            r.access_token@ == access_token@,
            match r.action {
                RoomAction::Join { alias_or_id, reason } => alias_or_id == dto.alias_or_id
                    && reason@ == text_or_empty(dto.reason),
                _ => false,
            },
    {
        let action = RoomAction::Join { alias_or_id: dto.alias_or_id, reason: or_empty(dto.reason) };
        RoomRequest { access_token: String::from_str(access_token), action }
    }

    /// Archives (forgets) a room.
    pub fn archive_room(&self, access_token: &str, dto: ArchiveRoomDto) -> (r: RoomRequest)
        ensures
            r.access_token@ == access_token@,
            match r.action {
                RoomAction::Forget { room_id, reason } => room_id == dto.room_id && reason@ == text_or_empty(
                    dto.reason,
                ),
                _ => false,
            },
    {
        let action = RoomAction::Forget { room_id: dto.room_id, reason: or_empty(dto.reason) };
        RoomRequest { access_token: String::from_str(access_token), action }
    }

    /// Leaves a room.
    pub fn leave_room(&self, access_token: &str, dto: LeaveRoomDto) -> (r: RoomRequest)
        ensures
            r.access_token@ == access_token@,
            match r.action {
                RoomAction::Leave { room_id, reason } => room_id == dto.room_id && reason@ == text_or_empty(
                    dto.reason,
                ),
                _ => false,
            },
    {
        let action = RoomAction::Leave { room_id: dto.room_id, reason: or_empty(dto.reason) };
        RoomRequest { access_token: String::from_str(access_token), action }
    }
}

} // verus!
