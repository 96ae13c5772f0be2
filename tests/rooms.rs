use commune_events::admin::{Direction, OrderBy, RoomService as AdminRooms};
use commune_events::events::{Events, Method, RelationsParams};
use commune_events::room::{
    ArchiveRoomDto, CreateDirectRoomDto, CreateRoomDto, JoinRoomDto, LeaveRoomDto, RoomAction,
    RoomPreset, RoomService,
};
use commune_events::board::RelationKind;
use commune_events::service::ClientConfig;

fn rooms() -> RoomService {
    RoomService::new(ClientConfig { base_url: "http://store.example".to_string() })
}

#[test]
fn public_room_defaults_missing_fields_to_empty() {
    let dto = CreateRoomDto { name: Some("General".to_string()), topic: None, alias: None };
    let req = rooms().create_public_room("tok", dto);
    assert_eq!(req.access_token, "tok");
    match req.action {
        RoomAction::Create(b) => {
            assert_eq!(b.preset, RoomPreset::PublicChat);
            assert!(!b.federate);
            assert_eq!(b.name, "General");
            assert_eq!(b.topic, "");
            assert_eq!(b.room_alias_name, "");
            assert!(!b.is_direct);
            assert!(b.invite.is_empty());
        }
        _ => panic!("not a creation"),
    }
}

#[test]
fn hidden_room_is_private() {
    let dto = CreateRoomDto { name: None, topic: Some("t".to_string()), alias: Some("a".to_string()) };
    match rooms().create_hidden_room("tok", dto).action {
        RoomAction::Create(b) => {
            assert_eq!(b.preset, RoomPreset::PrivateChat);
            assert_eq!(b.topic, "t");
            assert_eq!(b.room_alias_name, "a");
        }
        _ => panic!("not a creation"),
    }
}

#[test]
fn direct_room_invites_one() {
    let dto = CreateDirectRoomDto { invitee: "@bob:example.org".to_string() };
    match rooms().create_direct_room("tok", dto).action {
        RoomAction::Create(b) => {
            assert_eq!(b.preset, RoomPreset::TrustedPrivateChat);
            assert!(b.is_direct);
            assert_eq!(b.invite, vec!["@bob:example.org".to_string()]);
        }
        _ => panic!("not a creation"),
    }
}

#[test]
fn join_archive_leave() {
    let join = rooms().join_room("tok", JoinRoomDto { alias_or_id: "#a:x".to_string(), reason: None });
    assert!(matches!(join.action, RoomAction::Join { ref alias_or_id, ref reason } if alias_or_id == "#a:x" && reason.is_empty()));
    let archive = rooms().archive_room("tok", ArchiveRoomDto { room_id: "!r:x".to_string(), reason: Some("old".to_string()) });
    assert!(matches!(archive.action, RoomAction::Forget { ref room_id, ref reason } if room_id == "!r:x" && reason == "old"));
    let leave = rooms().leave_room("tok", LeaveRoomDto { room_id: "!r:x".to_string(), reason: None });
    assert!(matches!(leave.action, RoomAction::Leave { ref room_id, .. } if room_id == "!r:x"));
}

#[test]
fn admin_paths() {
    assert_eq!(AdminRooms::get_one("12345").path, "/_synapse/admin/v1/rooms/12345");
    assert_eq!(AdminRooms::get_all().path, "/_synapse/admin/v1/rooms");
    assert_eq!(AdminRooms::get_members("12345").path, "/_synapse/admin/v1/rooms/12345/members");
    assert_eq!(AdminRooms::get_state("12345").path, "/_synapse/admin/v1/rooms/12345/state");
    assert_eq!(AdminRooms::get_room_events("12345").path, "/_synapse/admin/v1/rooms/12345/messages");
    assert_eq!(
        AdminRooms::get_timestamp_to_event("12345").path,
        "/_synapse/admin/v1/rooms/12345/timestamp_to_event"
    );
    let del = AdminRooms::delete_forward_extremities("12345");
    assert_eq!(del.method, Method::Delete);
    assert_eq!(del.path, "/_synapse/admin/v1/rooms/12345/forward_extremities");
    assert_eq!(AdminRooms::check_forward_extremities("12345").method, Method::Get);
    assert_eq!(AdminRooms::delete_room("12345").method, Method::Delete);
    assert_eq!(
        AdminRooms::get_event_context("12345", "$e").path,
        "/_synapse/admin/v1/rooms/12345/context/$e"
    );
}

#[test]
fn wire_names() {
    assert_eq!(Direction::Forward.as_str(), "f");
    assert_eq!(Direction::Backward.as_str(), "b");
    assert_eq!(OrderBy::JoinedLocalMembers.as_str(), "joined_local_members");
    assert_eq!(OrderBy::Name.as_str(), "name");
}

#[test]
fn relations_path_with_kind_filters() {
    let params = RelationsParams { from: None, to: None, limit: None, direction: None };
    let any = Events::get_relations("tok", "!r:x", "$e", Some(None), Some("space.board.reply"), params.clone());
    assert_eq!(any.path, "/_matrix/client/v3/rooms/!r:x/relations/$e/m.in_reply_to/space.board.reply");
    let kind = Events::get_relations("tok", "!r:x", "$e", Some(Some(RelationKind::Annotation)), None, params.clone());
    assert_eq!(kind.path, "/_matrix/client/v3/rooms/!r:x/relations/$e/m.annotation");
    let none = Events::get_relations("tok", "!r:x", "$e", None, None, params);
    assert_eq!(none.path, "/_matrix/client/v3/rooms/!r:x/relations/$e");
}
