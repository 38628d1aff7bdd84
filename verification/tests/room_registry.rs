use tvmate::model::{PlayerStatus, UserMeta, UserState, VideoMeta};
use tvmate::room::{Room, RoomProvider, RoomProviderError, User, ROOM_CODE_LEN};
use tvmate::util::{generate_random_string, lowercase_alphanumeric};

fn user(id: u128, name: &str) -> User {
    User {
        meta: UserMeta { id, name: name.to_string(), state: UserState::VideoNotSelected },
        last_chat_request: None,
    }
}

fn ids(users: &[UserMeta]) -> Vec<u128> {
    users.iter().map(|u| u.id).collect()
}

#[test]
fn random_string_has_length_and_code_chars() {
    for len in [0usize, 1, 6, 40] {
        let s = generate_random_string(len);
        assert_eq!(s.chars().count(), len);
        assert!(s.chars().all(|c| c.is_ascii_digit() || c.is_ascii_lowercase()));
    }
}

#[test]
fn lowercase_alphanumeric_lowers_ascii_letters_only() {
    let s = lowercase_alphanumeric(&b"AbZ09qQ".to_vec());
    assert_eq!(s, "abz09qq");
    assert_eq!(lowercase_alphanumeric(&Vec::new()), "");
}

#[test]
fn new_room_creates_fresh_code_with_host_only() {
    let mut rooms = RoomProvider::new();
    let code = rooms.new_room(user(1, "host")).expect("room");
    assert_eq!(code.len(), ROOM_CODE_LEN);
    assert!(code.chars().all(|c| c.is_ascii_digit() || c.is_ascii_lowercase()));
    assert!(rooms.contains(&code));
    assert_eq!(ids(&rooms.room_users(&code).unwrap()), vec![1]);
    assert_eq!(rooms.get_room_player_status(&code), Some(PlayerStatus::Paused(0)));
    let other = rooms.new_room(user(2, "second")).expect("room");
    assert_ne!(code, other);
}

#[test]
fn room_new_has_single_member_and_is_paused_at_zero() {
    let room = Room::new(user(7, "x"));
    assert_eq!(room.users.len(), 1);
    assert_eq!(room.users[0].meta.id, 7);
    assert_eq!(room.player_status, PlayerStatus::Paused(0.0f64.to_bits()));
}

#[test]
fn open_room_refuses_taken_code() {
    let mut rooms = RoomProvider::new();
    assert!(rooms.open_room("abc123".to_string(), user(1, "a")).is_ok());
    let back = rooms.open_room("abc123".to_string(), user(2, "b")).unwrap_err();
    assert_eq!(back.meta.id, 2);
    assert_eq!(ids(&rooms.room_users("abc123").unwrap()), vec![1]);
}

#[test]
fn join_room_appends_member_and_keeps_host() {
    let mut rooms = RoomProvider::new();
    rooms.open_room("abc123".to_string(), user(1, "host")).unwrap();
    rooms.join_room("abc123", user(2, "guest")).unwrap();
    rooms.join_room("abc123", user(3, "third")).unwrap();
    assert_eq!(ids(&rooms.room_users("abc123").unwrap()), vec![1, 2, 3]);
    let info = rooms.get_room_info("abc123".to_string()).unwrap();
    assert_eq!(info.host, "host");
    assert_eq!(info.room_id, "abc123");
    assert_eq!(info.selected_video, None);
}

#[test]
fn join_unknown_room_is_refused() {
    let mut rooms = RoomProvider::new();
    assert_eq!(rooms.join_room("nope00", user(2, "guest")), Err(RoomProviderError::RoomDoesntExist));
    assert!(!rooms.contains("nope00"));
    assert_eq!(RoomProviderError::RoomDoesntExist.message(), "given room does not exist");
    assert_eq!(RoomProviderError::KeyGenerationFailed.message(), "cannot generate new key");
}

#[test]
fn remove_user_keeps_only_members_with_that_id() {
    let mut rooms = RoomProvider::new();
    rooms.open_room("abc123".to_string(), user(1, "host")).unwrap();
    rooms.join_room("abc123", user(2, "guest")).unwrap();
    rooms.join_room("abc123", user(3, "third")).unwrap();
    rooms.remove_user("abc123", 2);
    assert_eq!(ids(&rooms.room_users("abc123").unwrap()), vec![2]);
}

#[test]
fn remove_user_closes_room_when_nobody_is_kept() {
    let mut rooms = RoomProvider::new();
    rooms.open_room("abc123".to_string(), user(1, "host")).unwrap();
    rooms.remove_user("abc123", 9);
    assert!(!rooms.contains("abc123"));
    rooms.remove_user("abc123", 9);
    assert!(!rooms.contains("abc123"));
}

#[test]
fn playback_and_selection_updates() {
    let mut rooms = RoomProvider::new();
    rooms.open_room("abc123".to_string(), user(1, "host")).unwrap();
    rooms.set_player_status("abc123", PlayerStatus::Playing(5));
    assert_eq!(rooms.get_room_player_status("abc123"), Some(PlayerStatus::Playing(5)));
    rooms.set_player_time("abc123", 9);
    assert_eq!(rooms.get_room_player_status("abc123"), Some(PlayerStatus::Playing(9)));
    rooms.select_video("abc123", 1, VideoMeta { name: "movie.mp4".to_string(), duration: None });
    let info = rooms.get_room_info("abc123".to_string()).unwrap();
    assert_eq!(info.selected_video.as_deref(), Some("movie.mp4"));
    assert!(rooms.get_room_info("zzz999".to_string()).is_none());
    assert_eq!(rooms.get_room_player_status("zzz999"), None);
}

#[test]
fn broadcast_targets_skip_the_excluded_member() {
    let mut rooms = RoomProvider::new();
    rooms.open_room("abc123".to_string(), user(1, "host")).unwrap();
    rooms.join_room("abc123", user(2, "guest")).unwrap();
    rooms.join_room("abc123", user(3, "third")).unwrap();
    assert_eq!(rooms.broadcast_targets("abc123", 2), vec![1, 3]);
    assert_eq!(rooms.broadcast_targets("other0", 2), Vec::<u128>::new());
}

#[test]
fn call_request_stamp_goes_to_first_member_with_id() {
    let mut rooms = RoomProvider::new();
    rooms.open_room("abc123".to_string(), user(1, "host")).unwrap();
    rooms.join_room("abc123", user(2, "guest")).unwrap();
    assert!(rooms.note_call_request("abc123", 2, 1000));
    assert_eq!(rooms.last_call_request("abc123", 2), Some(Some(1000)));
    assert_eq!(rooms.last_call_request("abc123", 1), Some(None));
    assert_eq!(rooms.last_call_request("abc123", 5), None);
    assert!(!rooms.note_call_request("abc123", 5, 1000));
    assert!(rooms.has_member("abc123", 1));
    assert!(!rooms.has_member("abc124", 1));
}

#[test]
fn room_page_texts() {
    let mut rooms = RoomProvider::new();
    rooms.open_room("abc123".to_string(), user(1, "Ann")).unwrap();
    let info = rooms.get_room_info("abc123".to_string()).unwrap();
    assert_eq!(info.title(), "TVMate | abc123");
    assert_eq!(info.description(), "Join Ann to have watch party together");
}

#[test]
fn first_free_picks_the_first_untaken_code() {
    let mut rooms = RoomProvider::new();
    rooms.open_room("aaaaaa".to_string(), user(1, "a")).unwrap();
    rooms.open_room("bbbbbb".to_string(), user(2, "b")).unwrap();
    let drawn: Vec<String> = ["aaaaaa", "cccccc", "bbbbbb", "dddddd"].iter().map(|s| s.to_string()).collect();
    assert_eq!(rooms.first_free(&drawn), Some(1));
    let taken: Vec<String> = ["bbbbbb", "aaaaaa"].iter().map(|s| s.to_string()).collect();
    assert_eq!(rooms.first_free(&taken), None);
    assert_eq!(rooms.first_free(&Vec::new()), None);
}

#[test]
fn new_room_from_opens_under_first_free_code() {
    let mut rooms = RoomProvider::new();
    rooms.open_room("aaaaaa".to_string(), user(1, "a")).unwrap();
    let drawn: Vec<String> = ["aaaaaa", "eeeeee", "ffffff"].iter().map(|s| s.to_string()).collect();
    let code = rooms.new_room_from(drawn, user(7, "g")).unwrap();
    assert_eq!(code, "eeeeee");
    assert_eq!(ids(&rooms.room_users("eeeeee").unwrap()), vec![7]);
    assert_eq!(ids(&rooms.room_users("aaaaaa").unwrap()), vec![1]);
    assert!(!rooms.contains("ffffff"));
}

#[test]
fn new_room_from_fails_when_every_code_is_taken() {
    let mut rooms = RoomProvider::new();
    for (i, c) in ["aaaaaa", "bbbbbb", "cccccc", "dddddd", "eeeeee"].iter().enumerate() {
        rooms.open_room(c.to_string(), user(i as u128, "x")).unwrap();
    }
    let drawn: Vec<String> = ["eeeeee", "dddddd", "cccccc", "bbbbbb", "aaaaaa"].iter().map(|s| s.to_string()).collect();
    let r = rooms.new_room_from(drawn, user(9, "late"));
    assert!(matches!(r, Err(RoomProviderError::KeyGenerationFailed)));
    assert_eq!(ids(&rooms.room_users("aaaaaa").unwrap()), vec![0]);
    assert!(rooms.room_users("zzzzzz").is_none());
}

#[test]
fn empty_registry_always_opens_a_room() {
    for _ in 0..20 {
        let mut rooms = RoomProvider::new();
        assert!(rooms.new_room(user(1, "h")).is_ok());
    }
}
