use tvmate::client::{RoomManager, Toaster};
use tvmate::message::{ClientMessage, Message, OfferReason, RTCSessionDesc, RtcConfig, ServerMessage};
use tvmate::model::{PlayerStatus, UserMeta, UserState, VideoMeta};
use tvmate::room::{RoomProvider, RoomProviderError, User};
use tvmate::server::{
    handle_client_message, host_room, host_room_as, join_room, join_room_as, leave_room, RoomJoinError,
    CALL_REQUEST_COOLDOWN_MS,
};

fn rtc() -> RtcConfig {
    RtcConfig {
        stun: "stun:example.org".to_string(),
        turn: "turn:example.org".to_string(),
        turn_user: "u".to_string(),
        turn_creds: "c".to_string(),
    }
}

fn user(id: u128, name: &str) -> User {
    User {
        meta: UserMeta { id, name: name.to_string(), state: UserState::VideoNotSelected },
        last_chat_request: None,
    }
}

/// A room `abc123` with members 1 (host), 2 and 3.
fn three() -> RoomProvider {
    let mut rooms = RoomProvider::new();
    rooms.open_room("abc123".to_string(), user(1, "host")).unwrap();
    rooms.join_room("abc123", user(2, "b")).unwrap();
    rooms.join_room("abc123", user(3, "c")).unwrap();
    rooms
}

fn client(from: u128, m: ClientMessage) -> Message {
    Message::ClientMessage((from, m))
}

#[test]
fn host_room_as_opens_room_with_info() {
    let mut rooms = RoomProvider::new();
    let info = host_room_as(&mut rooms, 42, "alice".to_string(), rtc()).unwrap();
    assert_eq!(info.user_id, 42);
    assert_eq!(info.users.len(), 1);
    assert_eq!(info.users[0].name, "alice");
    assert_eq!(info.player_status, PlayerStatus::Paused(0));
    assert_eq!(info.rtc_config.stun, "stun:example.org");
    assert!(rooms.contains(&info.room_id));
}

#[test]
fn host_room_gives_a_version_four_id() {
    let mut rooms = RoomProvider::new();
    let info = host_room(&mut rooms, "alice".to_string(), rtc()).unwrap();
    assert_eq!((info.user_id >> 76) & 0xF, 4);
    assert_eq!((info.user_id >> 62) & 0x3, 2);
    let other = host_room(&mut rooms, "bob".to_string(), rtc()).unwrap();
    assert_ne!(info.user_id, other.user_id);
}

#[test]
fn join_room_as_lowercases_code_and_announces() {
    let mut rooms = RoomProvider::new();
    rooms.open_room("abc123".to_string(), user(1, "host")).unwrap();
    let joined = join_room_as(&mut rooms, 2, "bob".to_string(), "abc123".to_string(), rtc()).unwrap();
    assert_eq!(joined.info.room_id, "abc123");
    assert_eq!(joined.info.users.iter().map(|u| u.id).collect::<Vec<_>>(), vec![1, 2]);
    let announce = joined.announce.expect("announce");
    assert_eq!(announce.to, vec![1]);
    match announce.message {
        Message::ServerMessage(ServerMessage::UserJoined(j)) => {
            assert_eq!(j.new_user, 2);
            assert_eq!(j.users.len(), 2);
            assert_eq!(j.player_status, PlayerStatus::Paused(0));
        }
        other => panic!("unexpected {other:?}"),
    }
}

#[test]
fn join_with_upper_case_code_joins_but_announces_nothing() {
    let mut rooms = RoomProvider::new();
    rooms.open_room("abc123".to_string(), user(1, "host")).unwrap();
    let joined = join_room_as(&mut rooms, 2, "bob".to_string(), "ABC123".to_string(), rtc()).unwrap();
    assert_eq!(joined.info.room_id, "abc123");
    assert!(joined.announce.is_none());
    assert_eq!(rooms.room_users("abc123").unwrap().len(), 2);
}

#[test]
fn join_unknown_room_fails() {
    let mut rooms = RoomProvider::new();
    let err = join_room(&mut rooms, "bob".to_string(), "zzz999".to_string(), rtc()).unwrap_err();
    assert_eq!(err, RoomProviderError::RoomDoesntExist);
}

#[test]
fn join_room_draws_a_fresh_id() {
    let mut rooms = RoomProvider::new();
    rooms.open_room("abc123".to_string(), user(1, "host")).unwrap();
    let joined = join_room(&mut rooms, "bob".to_string(), "abc123".to_string(), rtc()).unwrap();
    assert_eq!((joined.info.user_id >> 76) & 0xF, 4);
}

#[test]
fn error_responses() {
    let e = RoomJoinError::from_provider(RoomProviderError::KeyGenerationFailed);
    assert_eq!(e.into_response(), (500, "KeyGenerationFailed".to_string()));
    assert_eq!(e.message(), "cannot generate new key");
    let e = RoomJoinError::from_provider(RoomProviderError::RoomDoesntExist);
    assert_eq!(e.into_response(), (400, "RoomDoesntExist".to_string()));
    assert_eq!(e.message(), "given room does not exist");
}

#[test]
fn chat_is_broadcast_to_the_others() {
    let mut rooms = three();
    let d = handle_client_message(&mut rooms, "abc123", 2, client(2, ClientMessage::Chat("hi".into())), 0).unwrap();
    assert_eq!(d.to, vec![1, 3]);
    assert!(matches!(d.message, Message::ClientMessage((2, ClientMessage::Chat(ref t))) if t == "hi"));
}

#[test]
fn impersonation_and_server_messages_are_ignored() {
    let mut rooms = three();
    assert!(handle_client_message(&mut rooms, "abc123", 2, client(3, ClientMessage::Play(1)), 0).is_none());
    assert_eq!(rooms.get_room_player_status("abc123"), Some(PlayerStatus::Paused(0)));
    let m = Message::ServerMessage(ServerMessage::Error("x".into()));
    assert!(handle_client_message(&mut rooms, "abc123", 2, m, 0).is_none());
    let desc = RTCSessionDesc { typ: "answer".into(), sdp: "s".into(), reason: OfferReason::VideoCall };
    assert!(handle_client_message(&mut rooms, "abc123", 2, client(2, ClientMessage::ReceivedSessionDesc(desc)), 0).is_none());
}

#[test]
fn playback_messages_update_the_room() {
    let mut rooms = three();
    let t = 12.5f64.to_bits();
    let d = handle_client_message(&mut rooms, "abc123", 1, client(1, ClientMessage::Play(t)), 0).unwrap();
    assert_eq!(d.to, vec![2, 3]);
    assert_eq!(rooms.get_room_player_status("abc123"), Some(PlayerStatus::Playing(t)));
    handle_client_message(&mut rooms, "abc123", 1, client(1, ClientMessage::Seek(7)), 0).unwrap();
    assert_eq!(rooms.get_room_player_status("abc123"), Some(PlayerStatus::Playing(7)));
    handle_client_message(&mut rooms, "abc123", 1, client(1, ClientMessage::Pause(8)), 0).unwrap();
    assert_eq!(rooms.get_room_player_status("abc123"), Some(PlayerStatus::Paused(8)));
    handle_client_message(&mut rooms, "abc123", 1, client(1, ClientMessage::Update(9)), 0).unwrap();
    assert_eq!(rooms.get_room_player_status("abc123"), Some(PlayerStatus::Paused(9)));
}

#[test]
fn playback_in_unknown_room_reaches_nobody() {
    let mut rooms = three();
    let d = handle_client_message(&mut rooms, "ABC123", 1, client(1, ClientMessage::Play(3)), 0).unwrap();
    assert!(d.to.is_empty());
    assert_eq!(rooms.get_room_player_status("abc123"), Some(PlayerStatus::Paused(0)));
}

#[test]
fn selected_video_is_recorded_and_broadcast() {
    let mut rooms = three();
    let meta = VideoMeta { name: "film.mkv".into(), duration: Some(3) };
    let d = handle_client_message(&mut rooms, "abc123", 1, client(1, ClientMessage::SetVideoMeta(meta)), 0).unwrap();
    assert_eq!(d.to, vec![2, 3]);
    let info = rooms.get_room_info("abc123".to_string()).unwrap();
    assert_eq!(info.selected_video.as_deref(), Some("film.mkv"));
}

#[test]
fn session_descriptions_and_candidates_go_to_the_addressee() {
    let mut rooms = three();
    let desc = RTCSessionDesc { typ: "offer".into(), sdp: "v=0".into(), reason: OfferReason::VideoShare(vec!["a".into()]) };
    let d = handle_client_message(&mut rooms, "abc123", 1, client(1, ClientMessage::SendSessionDesc(3, desc)), 0).unwrap();
    assert_eq!(d.to, vec![3]);
    assert!(matches!(d.message, Message::ClientMessage((1, ClientMessage::ReceivedSessionDesc(ref r))) if r.sdp == "v=0"));
    let d = handle_client_message(&mut rooms, "abc123", 1, client(1, ClientMessage::ExchangeCandidate(2, "cand".into())), 0).unwrap();
    assert_eq!(d.to, vec![2]);
    assert!(matches!(d.message, Message::ClientMessage((1, ClientMessage::ExchangeCandidate(1, ref c))) if c == "cand"));
    let d = handle_client_message(&mut rooms, "abc123", 1, client(1, ClientMessage::RequestVideoShare(2)), 0).unwrap();
    assert_eq!(d.to, vec![2]);
    assert!(matches!(d.message, Message::ClientMessage((1, ClientMessage::RequestVideoShare(1)))));
    assert!(handle_client_message(&mut rooms, "abc123", 1, client(1, ClientMessage::ExchangeCandidate(9, "c".into())), 0).is_none());
}

#[test]
fn call_requests_are_forwarded_then_rate_limited() {
    let mut rooms = three();
    let d = handle_client_message(&mut rooms, "abc123", 1, client(1, ClientMessage::RequestCall(2, true, false)), 1_000).unwrap();
    assert_eq!(d.to, vec![2]);
    assert!(matches!(d.message, Message::ClientMessage((1, ClientMessage::RequestCall(1, true, false)))));
    assert_eq!(rooms.last_call_request("abc123", 2), Some(Some(1_000)));
    let d = handle_client_message(&mut rooms, "abc123", 2, client(2, ClientMessage::RequestCall(3, true, true)), 1_000 + CALL_REQUEST_COOLDOWN_MS - 1).unwrap();
    assert_eq!(d.to, vec![2]);
    match d.message {
        Message::ServerMessage(ServerMessage::Error(t)) => assert_eq!(t, "Cant send vc request, Try after some time"),
        other => panic!("unexpected {other:?}"),
    }
    assert_eq!(rooms.last_call_request("abc123", 3), Some(None));
    let d = handle_client_message(&mut rooms, "abc123", 2, client(2, ClientMessage::RequestCall(3, true, true)), 1_000 + CALL_REQUEST_COOLDOWN_MS).unwrap();
    assert_eq!(d.to, vec![3]);
}

#[test]
fn leave_room_keeps_only_the_leaver_and_notifies_nobody_else() {
    let mut rooms = three();
    let d = leave_room(&mut rooms, "abc123", 2).unwrap();
    assert!(d.to.is_empty());
    assert!(matches!(d.message, Message::ServerMessage(ServerMessage::UserLeft(ref l)) if l.user_left == 2 && l.users.len() == 1));
    assert_eq!(rooms.room_users("abc123").unwrap().iter().map(|u| u.id).collect::<Vec<_>>(), vec![2]);
    let mut rooms = three();
    assert!(leave_room(&mut rooms, "abc123", 9).is_none());
    assert!(!rooms.contains("abc123"));
}

#[test]
fn relayed_playback_leaves_member_in_step_with_server() {
    let mut rooms = RoomProvider::new();
    let created = host_room_as(&mut rooms, 1, "host".to_string(), rtc()).unwrap();
    let code = created.room_id.clone();
    let joined = join_room_as(&mut rooms, 2, "guest".to_string(), code.clone(), rtc()).unwrap();
    let mut guest: RoomManager<()> = RoomManager::new();
    guest.host_join("guest".into(), Some(code.clone()), "ws://h", &mut Toaster::new(), |_, _| ()).unwrap();
    guest.on_message(Message::ServerMessage(ServerMessage::RoomJoined(joined.info)));
    for m in [ClientMessage::Play(30), ClientMessage::Seek(45), ClientMessage::Pause(46), ClientMessage::Update(50)] {
        let d = handle_client_message(&mut rooms, &code, 1, client(1, m), 0).unwrap();
        assert_eq!(d.to, vec![2]);
        guest.on_message(d.message);
        assert_eq!(guest.get_player_status(), rooms.get_room_player_status(&code));
    }
    assert_eq!(guest.get_player_status(), Some(PlayerStatus::Paused(50)));
}
