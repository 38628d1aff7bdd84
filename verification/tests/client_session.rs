use tvmate::client::{
    form_request, trims_to_empty, ClientEvent, ConnectionReadyState, PlayerMessages, RoomManager, RoomManagerError, RoomState,
    SendType, Toaster, ToastType, RECONNECT_LIMIT, CallMedia, MediaTracks,
};
use tvmate::message::{ClientMessage, Message, RoomJoinInfo, RtcConfig, ServerMessage, UserJoined, UserLeft};
use tvmate::model::{PlayerStatus, UserMeta, UserState, VideoMeta};
use tvmate::params::{HostParams, JoinParams};
use tvmate::player::{command_for, player_status_for, PlayerCommand, VideoState};

fn meta(id: u128, name: &str) -> UserMeta {
    UserMeta { id, name: name.to_string(), state: UserState::VideoNotSelected }
}

fn rtc() -> RtcConfig {
    RtcConfig { stun: "s".into(), turn: "t".into(), turn_user: "u".into(), turn_creds: "c".into() }
}

/// A session of member 1 in room `abc123` with members 1 and 2.
fn connected() -> RoomManager<u32> {
    let mut m: RoomManager<u32> = RoomManager::new();
    m.host_join("alice".into(), None, "ws://h", &mut Toaster::new(), |_, _| 7).unwrap();
    let info = RoomJoinInfo {
        room_id: "abc123".into(),
        user_id: 1,
        users: vec![meta(1, "alice"), meta(2, "bob")],
        player_status: PlayerStatus::Paused(0),
        rtc_config: rtc(),
    };
    let ev = m.on_message(Message::ServerMessage(ServerMessage::RoomCreated(info)));
    assert!(matches!(ev, ClientEvent::Navigate(ref p) if p == "/room/abc123"));
    m
}

#[test]
fn query_strings_are_form_encoded() {
    let q = HostParams { name: "a b&c".into() }.to_query().unwrap();
    assert_eq!(q, "name=a+b%26c");
    let q = JoinParams { name: "bob".into(), room_id: "abc123".into() }.to_query().unwrap();
    assert_eq!(q, "name=bob&room_id=abc123");
}

#[test]
fn host_join_builds_url_and_connects() {
    let mut m: RoomManager<String> = RoomManager::new();
    let mut toaster = Toaster::new();
    let url = m
        .host_join("a b".into(), Some("abc123".into()), "ws://host", &mut toaster, |u, limit| format!("{u}|{limit}"))
        .unwrap();
    assert_eq!(url, "ws://host/join_room?name=a+b&room_id=abc123");
    assert!(matches!(m.state, RoomState::Connecting(ref c) if c == &format!("{url}|0")));
    assert_eq!(m.message_signal().unwrap(), &format!("{url}|0"));
    assert_eq!(toaster.shown.len(), 1);
    assert_eq!(toaster.shown[0].message, "Connecting to server");
    assert_eq!(toaster.shown[0].kind, ToastType::Info);
    let again = m.host_join("x".into(), None, "ws://host", &mut toaster, |u, _| u.to_string());
    assert!(matches!(again, Err(RoomManagerError::AlreadyConnectedToRoom)));
    assert_eq!(toaster.shown.len(), 3);
    assert_eq!(toaster.shown[1].message, "Connecting to server");
    assert_eq!(toaster.shown[1].kind, ToastType::Info);
    let shown = toaster.current().unwrap();
    assert_eq!(shown.message, "Already connected to a room");
    assert_eq!(shown.kind, ToastType::Failed);
    let mut m: RoomManager<String> = RoomManager::new();
    let url = m.host_join("ann".into(), None, "ws://host", &mut toaster, |u, _| u.to_string()).unwrap();
    assert_eq!(url, "ws://host/host_room?name=ann");
    assert_eq!(toaster.shown.len(), 4);
}

#[test]
fn websocket_is_never_reopened() {
    assert_eq!(RECONNECT_LIMIT, 0);
    let mut m: RoomManager<u32> = RoomManager::new();
    m.host_join("z".into(), None, "ws://h", &mut Toaster::new(), |_, limit| limit + 40).unwrap();
    assert!(matches!(m.state, RoomState::Connecting(40)));
    assert!(Toaster::new().current().is_none());
}

#[test]
fn not_connected_errors() {
    let m: RoomManager<u32> = RoomManager::new();
    assert!(matches!(m.message_signal(), Err(RoomManagerError::NotConnectedToRoom)));
    assert_eq!(RoomManagerError::NotConnectedToRoom.message(), "not connected to room");
    assert_eq!(RoomManagerError::AlreadyConnectedToRoom.message(), "already connected to room");
    assert!(m.get_player_status().is_none());
    assert!(m.get_chat_signal().is_none());
    assert!(m.send_message(ClientMessage::Play(1), SendType::Reliable, Some(0)).is_none());
}

#[test]
fn room_answer_connects_and_fills_room_info() {
    let m = connected();
    assert!(m.state.is_connected());
    assert_eq!(m.message_signal().unwrap(), &7);
    let info = m.get_room_info().as_ref().unwrap();
    assert_eq!(info.id, "abc123");
    assert_eq!(info.users.len(), 2);
    assert_eq!(m.get_chat_signal().unwrap().len(), 0);
}

#[test]
fn room_answer_while_disconnected_is_ignored() {
    let mut m: RoomManager<u32> = RoomManager::new();
    let info = RoomJoinInfo { room_id: "x".into(), user_id: 1, users: vec![], player_status: PlayerStatus::Paused(0), rtc_config: rtc() };
    assert!(matches!(m.on_message(Message::ServerMessage(ServerMessage::RoomJoined(info))), ClientEvent::Nothing));
    assert!(m.state.is_disconnected());
    assert!(m.get_room_info().is_none());
}

#[test]
fn playback_messages_update_status_and_player() {
    let mut m = connected();
    let ev = m.on_message(Message::ClientMessage((2, ClientMessage::Play(5))));
    assert!(matches!(ev, ClientEvent::Player(PlayerMessages::Play(5))));
    assert_eq!(m.get_player_status(), Some(PlayerStatus::Playing(5)));
    m.on_message(Message::ClientMessage((2, ClientMessage::Seek(9))));
    assert_eq!(m.get_player_status(), Some(PlayerStatus::Playing(9)));
    assert_eq!(m.get_player_messages(), Some(PlayerMessages::Seek(9)));
    m.on_message(Message::ClientMessage((2, ClientMessage::Pause(10))));
    m.on_message(Message::ClientMessage((2, ClientMessage::Update(11))));
    assert_eq!(m.get_player_status(), Some(PlayerStatus::Paused(11)));
    assert_eq!(m.get_player_messages(), Some(PlayerMessages::Update(11)));
}

#[test]
fn membership_updates_and_errors() {
    let mut m = connected();
    let j = UserJoined { new_user: 3, users: vec![meta(1, "alice"), meta(2, "bob"), meta(3, "cy")], player_status: PlayerStatus::Playing(4) };
    m.on_message(Message::ServerMessage(ServerMessage::UserJoined(j)));
    assert_eq!(m.get_room_info().as_ref().unwrap().users.len(), 3);
    assert_eq!(m.get_player_status(), Some(PlayerStatus::Playing(4)));
    let l = UserLeft { user_left: 2, users: vec![meta(1, "alice")], player_status: PlayerStatus::Paused(6) };
    m.on_message(Message::ServerMessage(ServerMessage::UserLeft(l)));
    assert_eq!(m.get_room_info().as_ref().unwrap().users.len(), 1);
    let ev = m.on_message(Message::ServerMessage(ServerMessage::Error("boom".into())));
    assert!(matches!(ev, ClientEvent::Toast(ToastType::Failed, ref t) if t == "boom"));
}

#[test]
fn chat_lines_are_recorded() {
    let mut m = connected();
    let ev = m.on_message(Message::ClientMessage((2, ClientMessage::Chat("hello".into()))));
    assert!(matches!(ev, ClientEvent::Chat(ref u, ref t) if u.id == 2 && t == "hello"));
    let ev = m.on_message(Message::ClientMessage((9, ClientMessage::Chat("ghost".into()))));
    assert!(matches!(ev, ClientEvent::Nothing));
    let out = m.send_chat("  mine ".into()).unwrap();
    assert!(matches!(out, Message::ClientMessage((1, ClientMessage::Chat(ref t))) if t == "  mine "));
    assert!(m.send_chat(" \t\u{3000}\n".into()).is_none());
    let history = m.get_chat_signal().unwrap();
    assert_eq!(history.len(), 2);
    assert_eq!(history[0].0.id, 2);
    assert_eq!(history[1].1, "  mine ");
}

#[test]
fn trimming_matches_std() {
    for s in ["", " ", "\u{85}\u{a0}", "a", " x ", "\u{200b}", "\u{2029}\u{202f}"] {
        assert_eq!(trims_to_empty(s), s.trim().is_empty(), "{s:?}");
    }
}

#[test]
fn selecting_a_video_and_its_length() {
    let mut m = connected();
    assert!(m.set_video_duration(3).is_none());
    let out = m.set_selected_video("film.mkv".into()).unwrap();
    assert!(matches!(out, Message::ClientMessage((1, ClientMessage::SetVideoMeta(ref v))) if v.name == "film.mkv" && v.duration.is_none()));
    let out = m.set_video_duration(42).unwrap();
    assert!(matches!(out, Message::ClientMessage((1, ClientMessage::SetVideoMeta(ref v))) if v.duration == Some(42)));
    let out = m.set_selected_video("other.mkv".into()).unwrap();
    assert!(matches!(out, Message::ClientMessage((1, ClientMessage::SetVideoMeta(ref v))) if v.name == "other.mkv" && v.duration == Some(42)));
    let me = &m.get_room_info().as_ref().unwrap().users[0];
    assert!(matches!(me.state, UserState::VideoSelected(VideoMeta { ref name, duration: Some(42) }) if name == "other.mkv"));
    let ev = m.on_message(Message::ClientMessage((2, ClientMessage::SetVideoMeta(VideoMeta { name: "b.mp4".into(), duration: None }))));
    assert!(matches!(ev, ClientEvent::Nothing));
    assert!(matches!(m.get_room_info().as_ref().unwrap().users[1].state, UserState::VideoSelected(_)));
}

#[test]
fn unreliable_messages_wait_for_the_socket() {
    let m = connected();
    assert!(m.send_message(ClientMessage::Update(1), SendType::UnReliablle, Some(4)).is_some());
    assert!(m.send_message(ClientMessage::Update(1), SendType::UnReliablle, Some(5)).is_none());
    assert!(m.send_message(ClientMessage::Update(1), SendType::UnReliablle, None).is_none());
    assert!(m.send_message(ClientMessage::Update(1), SendType::Reliable, None).is_some());
}

#[test]
fn peer_signalling_events() {
    let mut m = connected();
    assert!(matches!(m.on_message(Message::ClientMessage((2, ClientMessage::ExchangeCandidate(1, "c".into())))), ClientEvent::IceCandidate(2, ref c) if c == "c"));
    assert!(matches!(m.on_message(Message::ClientMessage((2, ClientMessage::RequestCall(1, true, false)))), ClientEvent::CallRequest(2, true, false)));
    assert!(matches!(m.on_message(Message::ClientMessage((2, ClientMessage::RequestVideoShare(1)))), ClientEvent::ShareRequest(2)));
}

#[test]
fn closing_forgets_the_room() {
    let mut m = connected();
    let t = m.on_ready_state(ConnectionReadyState::Open).unwrap();
    assert_eq!(t.0, ToastType::Success);
    assert_eq!(t.1, "Connection Successful");
    assert!(m.on_ready_state(ConnectionReadyState::Connecting).is_none());
    assert!(m.state.is_connected());
    assert!(m.on_ready_state(ConnectionReadyState::Closed).is_none());
    assert!(m.state.is_disconnected());
    assert!(m.get_room_info().is_none());
    assert!(m.host_join("again".into(), None, "ws://h", &mut Toaster::new(), |_, _| 1).is_ok());
}

#[test]
fn set_player_status_is_read_back() {
    let mut m = connected();
    m.set_player_status(PlayerStatus::Playing(77));
    assert_eq!(m.get_player_status(), Some(PlayerStatus::Playing(77)));
    let mut d: RoomManager<u32> = RoomManager::new();
    d.set_player_status(PlayerStatus::Playing(77));
    assert_eq!(d.get_player_status(), None);
}

#[test]
fn local_player_changes_are_reported() {
    let mut m = connected();
    let out = m.sync_local_state(VideoState::Playing, 3).unwrap();
    assert!(matches!(out, Message::ClientMessage((1, ClientMessage::Play(3)))));
    assert_eq!(m.get_player_status(), Some(PlayerStatus::Playing(3)));
    assert!(m.sync_local_state(VideoState::Playing, 4).is_none());
    assert!(m.sync_local_state(VideoState::Seeking, 4).is_none());
    let out = m.sync_local_state(VideoState::Stalled, 5).unwrap();
    assert!(matches!(out, Message::ClientMessage((1, ClientMessage::Pause(5)))));
}

#[test]
fn player_follows_the_room() {
    assert_eq!(player_status_for(VideoState::Playing, 2), PlayerStatus::Playing(2));
    assert_eq!(player_status_for(VideoState::Ended, 2), PlayerStatus::Paused(2));
    assert_eq!(command_for(VideoState::Paused, PlayerMessages::Play(1)), PlayerCommand::Play);
    assert_eq!(command_for(VideoState::Playing, PlayerMessages::Play(1)), PlayerCommand::Nothing);
    assert_eq!(command_for(VideoState::Playing, PlayerMessages::Pause(1)), PlayerCommand::Pause);
    assert_eq!(command_for(VideoState::Waiting, PlayerMessages::Pause(1)), PlayerCommand::Nothing);
    assert_eq!(command_for(VideoState::Waiting, PlayerMessages::Seek(8)), PlayerCommand::SeekTo(8));
    assert_eq!(command_for(VideoState::Seeking, PlayerMessages::Seek(8)), PlayerCommand::Nothing);
    assert_eq!(command_for(VideoState::Playing, PlayerMessages::Update(8)), PlayerCommand::Nothing);
    assert_eq!(VideoState::Suspend.name(), "Suspend");
}

#[test]
fn call_request_prompts_only_for_members_asking_for_something() {
    let m = connected();
    let (u, v, a) = m.call_request_prompt(2, true, false).unwrap();
    assert_eq!(u.name, "bob");
    assert!(v && !a);
    assert!(m.call_request_prompt(2, false, false).is_none());
    assert!(m.call_request_prompt(9, true, true).is_none());
}

#[test]
fn call_setup_needs_a_room() {
    let mut d: RoomManager<u32> = RoomManager::new();
    assert_eq!(d.connect_audio_chat(2, false, true, true).unwrap_err(), "Room not connected");
    let mut media: CallMedia<&str, &str, u8> = CallMedia::new();
    media.self_audio = Some("mic");
    media.add_peer(2, 9);
    assert_eq!(d.close_vc(&mut media, 2).unwrap_err(), "Room not connected");
    assert_eq!(media.self_audio, Some("mic"));
    assert!(media.has_peer(2));
    assert_eq!(d.permission_for(2), (false, false));
    let mut m = connected();
    let (me, cfg) = m.connect_audio_chat(2, false, true, false).unwrap();
    assert_eq!(me, 1);
    assert_eq!(cfg.turn, "t");
    assert_eq!(m.permission_for(2), (true, false));
    m.connect_audio_chat(3, true, true, true).unwrap();
    assert_eq!(m.permission_for(3), (false, false));
    let mut media: CallMedia<&str, &str, u8> = CallMedia::new();
    media.self_audio = Some("mic");
    media.self_video = Some("cam");
    media.video_stream = Some((2, Some("remote")));
    media.add_peer(2, 9);
    media.add_peer(3, 8);
    let closed = m.close_vc(&mut media, 2).unwrap();
    assert_eq!(closed.stopped, vec!["mic", "cam"]);
    assert_eq!(closed.cleared, vec![2, 1]);
    assert!(media.self_audio.is_none() && media.self_video.is_none());
    assert_eq!(media.audio_stream, Some((1, None)));
    assert_eq!(media.video_stream, Some((1, None)));
    assert!(!media.has_peer(2));
    assert!(media.has_peer(3));
    assert_eq!(m.add_video_share(4).unwrap().0, 1);
    assert_eq!(m.permission_for(4), (false, false));
    assert!(d.add_video_share(4).is_err());
}

#[test]
fn call_requests_are_sent_and_remembered() {
    let mut m = connected();
    let mut media: CallMedia<&str, &str, u8> = CallMedia::new();
    media.self_video = Some("old cam");
    let tracks: Result<MediaTracks<&str>, String> = Ok(MediaTracks { video: None, audio: Some("mic") });
    let out = m.send_vc_request(&mut media, 2, false, true, tracks).unwrap().unwrap();
    assert!(matches!(out, Message::ClientMessage((1, ClientMessage::RequestCall(2, false, true)))));
    assert_eq!(m.permission_for(2), (false, true));
    assert_eq!(media.self_audio, Some("mic"));
    assert_eq!(media.self_video, Some("old cam"));
}

#[test]
fn refused_media_sends_no_call_request() {
    let mut m = connected();
    let mut media: CallMedia<&str, &str, u8> = CallMedia::new();
    let tracks: Result<MediaTracks<&str>, String> = Err("denied".to_string());
    let r = m.send_vc_request(&mut media, 2, true, true, tracks);
    assert_eq!(r.unwrap_err(), "denied");
    assert_eq!(m.permission_for(2), (false, false));
    assert!(media.self_audio.is_none() && media.self_video.is_none());
}

#[test]
fn failures_stay_on_screen() {
    assert!(ToastType::Success.auto_dismisses());
    assert!(ToastType::Info.auto_dismisses());
    assert!(!ToastType::Failed.auto_dismisses());
}

#[test]
fn forms_need_name_and_room_code() {
    assert!(form_request("".into(), None).is_none());
    assert!(form_request("ann".into(), Some("".into())).is_none());
    assert!(form_request("".into(), Some("abc".into())).is_none());
    assert_eq!(form_request("ann".into(), None), Some(("ann".to_string(), None)));
    assert_eq!(form_request("ann".into(), Some("abc".into())), Some(("ann".to_string(), Some("abc".to_string()))));
}

#[test]
fn call_tracks_reuse_held_and_keep_new_ones() {
    let mut media: CallMedia<String, (), ()> = CallMedia::new();
    media.self_video = Some("cam".to_string());
    let none: Option<Result<MediaTracks<String>, ()>> = None;
    assert_eq!(media.take_up_tracks(true, false, none), (Some("cam".to_string()), None));
    let got: Option<Result<MediaTracks<String>, ()>> = Some(Ok(MediaTracks { video: None, audio: Some("mic".to_string()) }));
    assert_eq!(media.take_up_tracks(true, true, got), (Some("cam".to_string()), Some("mic".to_string())));
    assert_eq!(media.self_audio, Some("mic".to_string()));
    let failed: Option<Result<MediaTracks<String>, ()>> = Some(Err(()));
    assert_eq!(media.take_up_tracks(true, true, failed), (None, None));
    assert_eq!(media.self_video, Some("cam".to_string()));
    let none: Option<Result<MediaTracks<String>, ()>> = None;
    assert_eq!(media.take_up_tracks(false, false, none), (None, None));
}

#[test]
fn socket_failures_are_shown() {
    let m: RoomManager<u32> = RoomManager::new();
    let mut toaster = Toaster::new();
    m.on_socket_error(&mut toaster);
    assert_eq!(toaster.current().unwrap().message, "Connection Failed");
    assert_eq!(toaster.current().unwrap().kind, ToastType::Failed);
    m.on_socket_close("given room does not exist".to_string(), &mut toaster);
    assert_eq!(toaster.shown.len(), 2);
    assert_eq!(toaster.current().unwrap().message, "given room does not exist");
    assert_eq!(toaster.current().unwrap().kind, ToastType::Failed);
}

#[test]
fn messages_keep_call_permissions() {
    let mut m = connected();
    let mut media: CallMedia<&str, &str, u8> = CallMedia::new();
    let tracks: Result<MediaTracks<&str>, String> = Ok(MediaTracks { video: Some("cam"), audio: None });
    m.send_vc_request(&mut media, 2, true, false, tracks).unwrap();
    m.on_message(Message::ClientMessage((2, ClientMessage::Play(5))));
    m.on_message(Message::ClientMessage((2, ClientMessage::Chat("hi".into()))));
    m.set_player_status(PlayerStatus::Paused(9));
    assert_eq!(m.permission_for(2), (true, false));
}
