//! The server's side of a room: opening and joining rooms, relaying what
//! members send, and telling the others when somebody leaves.

use vstd::prelude::*;
use crate::message::{ClientMessage, Message, RoomJoinInfo, RtcConfig, ServerMessage, UserJoined, UserLeft};
use crate::client::{client_outcome, ClientEvent, RoomManager};
use crate::model::{PlayerStatus, UserMeta, UserState};
use crate::room::{
    all_taken, drawn_codes, has_user, initial_player_status, is_first_with_id, is_new_room, is_room_code, metas, others,
    lemma_broadcast_only_members, lemma_broadcast_reaches_others, lemma_broadcast_skips_excluded,
    room_with_status, spec_last_call_request, spec_provider_error_message,
    targets, user_removed, user_with_state, Room, RoomProvider, RoomProviderError, User,
};

verus! {

/// How long (milliseconds) a member who received a call request is not
/// allowed to send one.
pub const CALL_REQUEST_COOLDOWN_MS: u64 = 60_000;

/// Why a room could not be opened or joined.
#[derive(Debug, Clone, Copy, PartialEq, Eq, Structural)]
pub enum RoomJoinError {
    RoomProviderError(RoomProviderError),
}

impl RoomJoinError {
    /// Wraps a registry error.
    pub fn from_provider(e: RoomProviderError) -> (r: RoomJoinError)
        ensures
            r == RoomJoinError::RoomProviderError(e),
    {
        RoomJoinError::RoomProviderError(e)
    }

    /// The error's text, which is that of the registry error.
    pub fn message(&self) -> (r: String)
        ensures
            r@ == spec_provider_error_message(self->0),
    {
        match self {
            RoomJoinError::RoomProviderError(e) => e.message(),
        }
    }

    /// The HTTP status and body answered for the error: a server error when
    /// no code could be generated, a bad request when the room is unknown;
    /// the body names the error.
    pub fn into_response(&self) -> (r: (u16, String))
        ensures
            r.0 == (match self->0 {
                RoomProviderError::KeyGenerationFailed => 500u16,
                RoomProviderError::RoomDoesntExist => 400u16,
            }),
            r.1@ == (match self->0 {
                RoomProviderError::KeyGenerationFailed => "KeyGenerationFailed"@,
                RoomProviderError::RoomDoesntExist => "RoomDoesntExist"@,
            }),
    {
        match self {
            RoomJoinError::RoomProviderError(RoomProviderError::KeyGenerationFailed) => {
                (500, String::from_str("KeyGenerationFailed"))
            },
            RoomJoinError::RoomProviderError(RoomProviderError::RoomDoesntExist) => {
                (400, String::from_str("RoomDoesntExist"))
            },
        }
    }
}

/// One message to deliver, and the members who get it.
#[derive(Debug)]
pub struct Dispatch {
    pub to: Vec<u128>,
    pub message: Message,
}

/// The text a member gets when it asks for a call too soon.
pub open spec fn spec_cooldown_text() -> Seq<char> {
    "Cant send vc request, Try after some time"@
}

/// A member that got a call request at `last` may not send one at `now`.
pub open spec fn in_cooldown(last: u64, now: u64) -> bool {
    now < last || now - last < CALL_REQUEST_COOLDOWN_MS
}

/// `r` sends `message` to exactly the members `to`.
pub open spec fn sends(r: Option<Dispatch>, to: Seq<u128>, message: Message) -> bool {
    r is Some && r->0.to@ == to && r->0.message == message
}

/// What the relay does with `msg`, received on the connection of member
/// `user_id` in room `room_id` at time `now`: the rooms before (`old`) and
/// after (`new`), and what it sends (`r`).
pub open spec fn relay_outcome(
    old: Map<Seq<char>, Room>,
    new: Map<Seq<char>, Room>,
    room_id: Seq<char>,
    user_id: u128,
    msg: Message,
    now: u64,
    r: Option<Dispatch>,
) -> bool {
    let in_room = old.dom().contains(room_id);
    match msg {
        Message::ServerMessage(_) => r is None && new == old,
        Message::ClientMessage((sender, m)) => if sender != user_id {
            r is None && new == old
        } else {
            match m {
                ClientMessage::Chat(_) => new == old && sends(r, targets(old, room_id, user_id), msg),
                ClientMessage::SetVideoMeta(meta) => {
                    &&& sends(r, targets(old, room_id, user_id), msg)
                    &&& !(in_room && has_user(old[room_id].users@, user_id)) ==> new == old
                    &&& in_room && has_user(old[room_id].users@, user_id) ==> {
                        let users = old[room_id].users@;
                        exists|i: int| {
                            &&& is_first_with_id(users, user_id, i)
                            &&& new == old.insert(room_id, new[room_id])
                            &&& new[room_id].player_status == old[room_id].player_status
                            &&& new[room_id].users@ == users.update(i, user_with_state(users[i], UserState::VideoSelected(meta)))
                        }
                    }
                },
                ClientMessage::Play(t) => {
                    &&& sends(r, targets(old, room_id, user_id), msg)
                    &&& new == (if in_room {
                        old.insert(room_id, room_with_status(old[room_id], crate::model::PlayerStatus::Playing(t)))
                    } else {
                        old
                    })
                },
                ClientMessage::Pause(t) => {
                    &&& sends(r, targets(old, room_id, user_id), msg)
                    &&& new == (if in_room {
                        old.insert(room_id, room_with_status(old[room_id], crate::model::PlayerStatus::Paused(t)))
                    } else {
                        old
                    })
                },
                ClientMessage::Seek(t) | ClientMessage::Update(t) => {
                    &&& sends(r, targets(old, room_id, user_id), msg)
                    &&& new == (if in_room {
                        old.insert(room_id, room_with_status(old[room_id], old[room_id].player_status.spec_with_time(t)))
                    } else {
                        old
                    })
                },
                ClientMessage::SendSessionDesc(to, desc) => {
                    &&& new == old
                    &&& if in_room && has_user(old[room_id].users@, to) {
                        sends(r, seq![to], Message::ClientMessage((sender, ClientMessage::ReceivedSessionDesc(desc))))
                    } else {
                        r is None
                    }
                },
                ClientMessage::ExchangeCandidate(to, candidate) => {
                    &&& new == old
                    &&& if in_room && has_user(old[room_id].users@, to) {
                        sends(r, seq![to], Message::ClientMessage((sender, ClientMessage::ExchangeCandidate(sender, candidate))))
                    } else {
                        r is None
                    }
                },
                ClientMessage::RequestVideoShare(to) => {
                    &&& new == old
                    &&& if in_room && has_user(old[room_id].users@, to) {
                        sends(r, seq![to], Message::ClientMessage((sender, ClientMessage::RequestVideoShare(sender))))
                    } else {
                        r is None
                    }
                },
                ClientMessage::RequestCall(to, video, audio) => {
                    if spec_last_call_request(old, room_id, sender) matches Some(Some(last)) && in_cooldown(last, now) {
                        &&& new == old
                        &&& r is Some
                        &&& r->0.to@ == seq![sender]
                        &&& r->0.message matches Message::ServerMessage(ServerMessage::Error(text)) && text@ == spec_cooldown_text()
                    } else if in_room && has_user(old[room_id].users@, to) {
                        let users = old[room_id].users@;
                        &&& sends(r, seq![to], Message::ClientMessage((sender, ClientMessage::RequestCall(sender, video, audio))))
                        &&& exists|i: int| {
                            &&& is_first_with_id(users, to, i)
                            &&& new == old.insert(room_id, new[room_id])
                            &&& new[room_id].player_status == old[room_id].player_status
                            &&& new[room_id].users@ == users.update(i, User { meta: users[i].meta, last_chat_request: Some(now) })
                        }
                    } else {
                        new == old && r is None
                    }
                },
                ClientMessage::ReceivedSessionDesc(_) => r is None && new == old,
            }
        },
    }
}

fn single(id: u128) -> (r: Vec<u128>)
    ensures
        r@ == seq![id],
{
    let mut r: Vec<u128> = Vec::new();
    r.push(id);
    r
}

/// Decides what to do with `msg`, received on the connection of member
/// `user_id` of room `room_id` at time `now` (milliseconds on the server's
/// clock): updates the room and says what to send to whom.
pub fn handle_client_message(
    rooms: &mut RoomProvider,
    room_id: &str,
    user_id: u128,
    msg: Message,
    now: u64,
) -> (r: Option<Dispatch>)
    requires
        old(rooms).wf(),
    ensures
        final(rooms).wf(),
        relay_outcome(old(rooms)@, final(rooms)@, room_id@, user_id, msg, now, r),
{
    let ghost orig = msg;
    let (sender, m) = match msg {
        Message::ServerMessage(_) => return None,
        Message::ClientMessage((sender, m)) => (sender, m),
    };
    if sender != user_id {
        return None;
    }
    match m {
        ClientMessage::Chat(text) => {
            let to = rooms.broadcast_targets(room_id, user_id);
            Some(Dispatch { to, message: Message::ClientMessage((sender, ClientMessage::Chat(text))) })
        },
        ClientMessage::SetVideoMeta(meta) => {
            let copy = meta.copy();
            rooms.select_video(room_id, user_id, copy);
            let to = rooms.broadcast_targets(room_id, user_id);
            assert(to@ == targets(old(rooms)@, room_id@, user_id)) by {
                if old(rooms)@.dom().contains(room_id@) && has_user(old(rooms)@[room_id@].users@, user_id) {
                    let users = old(rooms)@[room_id@].users@;
                    let i = choose|i: int| {
                        &&& is_first_with_id(users, user_id, i)
                        &&& rooms@ == old(rooms)@.insert(room_id@, rooms@[room_id@])
                        &&& rooms@[room_id@].player_status == old(rooms)@[room_id@].player_status
                        &&& rooms@[room_id@].users@ == users.update(i, user_with_state(users[i], UserState::VideoSelected(meta)))
                    };
                    lemma_others_update_same_id(users, i, user_with_state(users[i], UserState::VideoSelected(meta)), user_id);
                }
            }
            Some(Dispatch { to, message: Message::ClientMessage((sender, ClientMessage::SetVideoMeta(meta))) })
        },
        ClientMessage::Play(t) => {
            rooms.set_player_status(room_id, crate::model::PlayerStatus::Playing(t));
            let to = rooms.broadcast_targets(room_id, user_id);
            Some(Dispatch { to, message: Message::ClientMessage((sender, ClientMessage::Play(t))) })
        },
        ClientMessage::Pause(t) => {
            rooms.set_player_status(room_id, crate::model::PlayerStatus::Paused(t));
            let to = rooms.broadcast_targets(room_id, user_id);
            Some(Dispatch { to, message: Message::ClientMessage((sender, ClientMessage::Pause(t))) })
        },
        ClientMessage::Seek(t) => {
            rooms.set_player_time(room_id, t);
            let to = rooms.broadcast_targets(room_id, user_id);
            Some(Dispatch { to, message: Message::ClientMessage((sender, ClientMessage::Seek(t))) })
        },
        ClientMessage::Update(t) => {
            rooms.set_player_time(room_id, t);
            let to = rooms.broadcast_targets(room_id, user_id);
            Some(Dispatch { to, message: Message::ClientMessage((sender, ClientMessage::Update(t))) })
        },
        ClientMessage::SendSessionDesc(to, desc) => {
            if rooms.has_member(room_id, to) {
                Some(Dispatch {
                    to: single(to),
                    message: Message::ClientMessage((sender, ClientMessage::ReceivedSessionDesc(desc))),
                })
            } else {
                None
            }
        },
        ClientMessage::ExchangeCandidate(to, candidate) => {
            if rooms.has_member(room_id, to) {
                Some(Dispatch {
                    to: single(to),
                    message: Message::ClientMessage((sender, ClientMessage::ExchangeCandidate(sender, candidate))),
                })
            } else {
                None
            }
        },
        ClientMessage::RequestVideoShare(to) => {
            if rooms.has_member(room_id, to) {
                Some(Dispatch {
                    to: single(to),
                    message: Message::ClientMessage((sender, ClientMessage::RequestVideoShare(sender))),
                })
            } else {
                None
            }
        },
        ClientMessage::RequestCall(to, video, audio) => {
            if let Some(Some(last)) = rooms.last_call_request(room_id, sender) {
                if now < last || now - last < CALL_REQUEST_COOLDOWN_MS {
                    return Some(Dispatch {
                        to: single(sender),
                        message: Message::ServerMessage(ServerMessage::Error(
                            String::from_str("Cant send vc request, Try after some time"),
                        )),
                    });
                }
            }
            if rooms.note_call_request(room_id, to, now) {
                Some(Dispatch {
                    to: single(to),
                    message: Message::ClientMessage((sender, ClientMessage::RequestCall(sender, video, audio))),
                })
            } else {
                None
            }
        },
        ClientMessage::ReceivedSessionDesc(_) => None,
    }
}

/// Replacing a member by one with the same id leaves the broadcast targets
/// as they were.
proof fn lemma_others_update_same_id(users: Seq<User>, i: int, u: User, excluded: u128)
    requires
        0 <= i < users.len(),
        u.meta.id == users[i].meta.id,
    ensures
        others(users.update(i, u), excluded) == others(users, excluded),
    decreases users.len(),
{
    reveal(Seq::filter);
    let t = users.update(i, u);
    if i == users.len() - 1 {
        assert(t.drop_last() =~= users.drop_last());
    } else {
        lemma_others_update_same_id(users.drop_last(), i, u, excluded);
        assert(t.drop_last() =~= users.drop_last().update(i, u));
    }
    let pred = |v: User| v.meta.id != excluded;
    let f = |v: User| v.meta.id;
    if pred(users.last()) {
        assert(t.filter(pred).map_values(f) =~= t.drop_last().filter(pred).map_values(f).push(t.last().meta.id));
        assert(users.filter(pred).map_values(f) =~= users.drop_last().filter(pred).map_values(f).push(users.last().meta.id));
    }
}

/// The name of what `str::to_lowercase` returns: the Unicode lower-case
/// mapping of each character.
pub uninterp spec fn spec_to_lowercase(s: Seq<char>) -> Seq<char>;

/// `str::to_lowercase`. Its result is named by `spec_to_lowercase`; the
/// Unicode case tables behind it are not written out here.
#[verifier::external_body]
fn to_lowercase(s: &str) -> (r: String)
    ensures
        r@ == spec_to_lowercase(s@),
{
    s.to_lowercase()
}

/// A random (version 4, RFC variant) id.
pub open spec fn is_random_id(id: u128) -> bool {
    &&& (id >> 76u128) & 15u128 == 4u128
    &&& (id >> 62u128) & 3u128 == 2u128
}

/// `uuid::Uuid::new_v4`, read as its 128-bit big-endian value: a random id
/// whose version nibble is 4 and whose variant bits are `10`, as the crate's
/// source masks them. Which id it is depends on the random source.
#[verifier::external_body]
fn new_user_id() -> (id: u128)
    ensures
        is_random_id(id),
{
    uuid::Uuid::new_v4().as_u128()
}

/// A member who has just arrived: known by id and name, no video selected,
/// never asked for a call.
pub open spec fn arriving_user(user_id: u128, name: String) -> User {
    User {
        meta: UserMeta { id: user_id, name, state: UserState::VideoNotSelected },
        last_chat_request: None,
    }
}

fn arriving(user_id: u128, name: String) -> (r: User)
    ensures
        r == arriving_user(user_id, name),
{
    User { meta: UserMeta { id: user_id, name, state: UserState::VideoNotSelected }, last_chat_request: None }
}

/// Opens a room for a new member called `name` with the id `user_id`, and
/// says what the member is told: the room's code, its members and status,
/// and the relay servers.
pub fn host_room_as(
    rooms: &mut RoomProvider,
    user_id: u128,
    name: String,
    rtc_config: RtcConfig,
) -> (r: Result<RoomJoinInfo, RoomJoinError>)
    requires
        old(rooms).wf(),
    ensures
        final(rooms).wf(),
        old(rooms)@.dom().len() == 0 ==> r is Ok,
        r is Err ==> exists|d: Seq<Seq<char>>| #![trigger drawn_codes(d)] drawn_codes(d) && all_taken(old(rooms)@, d),
        match r {
            Ok(info) => {
                &&& is_room_code(info.room_id@)
                &&& !old(rooms)@.dom().contains(info.room_id@)
                &&& final(rooms)@ == old(rooms)@.insert(info.room_id@, final(rooms)@[info.room_id@])
                &&& is_new_room(final(rooms)@[info.room_id@], arriving_user(user_id, name))
                &&& info.user_id == user_id
                &&& info.users@ == seq![arriving_user(user_id, name).meta]
                &&& info.player_status == initial_player_status()
                &&& info.rtc_config == rtc_config
            },
            Err(e) => {
                &&& e == RoomJoinError::RoomProviderError(RoomProviderError::KeyGenerationFailed)
                &&& final(rooms)@ == old(rooms)@
            },
        },
{
    let user = arriving(user_id, name);
    let ghost u = user;
    match rooms.new_room(user) {
        Err(e) => Err(RoomJoinError::from_provider(e)),
        Ok(room_id) => {
            let users = match rooms.room_users(room_id.as_str()) {
                Some(users) => users,
                None => Vec::new(),
            };
            assert(users@ =~= seq![u.meta]);
            Ok(RoomJoinInfo {
                room_id,
                user_id,
                users,
                player_status: crate::model::PlayerStatus::Paused(0),
                rtc_config,
            })
        },
    }
}

/// Opens a room for a new member called `name`, who gets a fresh random
/// id.
pub fn host_room(rooms: &mut RoomProvider, name: String, rtc_config: RtcConfig) -> (r: Result<RoomJoinInfo, RoomJoinError>)
    requires
        old(rooms).wf(),
    ensures
        final(rooms).wf(),
        old(rooms)@.dom().len() == 0 ==> r is Ok,
        r is Err ==> exists|d: Seq<Seq<char>>| #![trigger drawn_codes(d)] drawn_codes(d) && all_taken(old(rooms)@, d),
        match r {
            Ok(info) => {
                &&& is_room_code(info.room_id@)
                &&& !old(rooms)@.dom().contains(info.room_id@)
                &&& final(rooms)@ == old(rooms)@.insert(info.room_id@, final(rooms)@[info.room_id@])
                &&& is_new_room(final(rooms)@[info.room_id@], arriving_user(info.user_id, name))
                &&& is_random_id(info.user_id)
                &&& info.users@ == seq![arriving_user(info.user_id, name).meta]
                &&& info.player_status == initial_player_status()
                &&& info.rtc_config == rtc_config
            },
            Err(e) => {
                &&& e == RoomJoinError::RoomProviderError(RoomProviderError::KeyGenerationFailed)
                &&& final(rooms)@ == old(rooms)@
            },
        },
{
    let user_id = new_user_id();
    host_room_as(rooms, user_id, name, rtc_config)
}

/// What joining a room yields: what the new member is told, and the notice
/// for the members already there.
#[derive(Debug)]
pub struct Joined {
    pub info: RoomJoinInfo,
    pub announce: Option<Dispatch>,
}

/// The effect of a member with id `user_id` and name `name` joining the
/// room whose code the member typed as `typed`: the room is looked up by the
/// lower-cased code; the notice to the others goes through the code as
/// typed.
pub open spec fn join_outcome(
    old: Map<Seq<char>, Room>,
    new: Map<Seq<char>, Room>,
    user_id: u128,
    name: String,
    typed: Seq<char>,
    rtc_config: RtcConfig,
    r: Result<Joined, RoomProviderError>,
) -> bool {
    let key = spec_to_lowercase(typed);
    if old.dom().contains(key) {
        &&& r is Ok
        &&& new == old.insert(key, new[key])
        &&& new[key].users@ == old[key].users@.push(arriving_user(user_id, name))
        &&& new[key].player_status == old[key].player_status
        &&& r->Ok_0.info.room_id@ == key
        &&& r->Ok_0.info.user_id == user_id
        &&& r->Ok_0.info.users@ == metas(new[key].users@)
        &&& r->Ok_0.info.player_status == new[key].player_status
        &&& r->Ok_0.info.rtc_config == rtc_config
        &&& if new.dom().contains(typed) {
            let a = r->Ok_0.announce;
            &&& a is Some
            &&& a->0.to@ == targets(new, typed, user_id)
            &&& a->0.message matches Message::ServerMessage(ServerMessage::UserJoined(j))
            &&& j.new_user == user_id
            &&& j.users@ == metas(new[key].users@)
            &&& j.player_status == new[typed].player_status
        } else {
            r->Ok_0.announce is None
        }
    } else {
        r == Err::<Joined, RoomProviderError>(RoomProviderError::RoomDoesntExist) && new == old
    }
}

/// Adds a member with id `user_id` and name `name` to the room whose code
/// the member typed as `room_id`.
pub fn join_room_as(
    rooms: &mut RoomProvider,
    user_id: u128,
    name: String,
    room_id: String,
    rtc_config: RtcConfig,
) -> (r: Result<Joined, RoomProviderError>)
    requires
        old(rooms).wf(),
    ensures
        final(rooms).wf(),
        join_outcome(old(rooms)@, final(rooms)@, user_id, name, room_id@, rtc_config, r),
{
    let key = to_lowercase(room_id.as_str());
    let user = arriving(user_id, name);
    match rooms.join_room(key.as_str(), user) {
        Err(e) => Err(e),
        Ok(()) => {
            let users = match rooms.room_users(key.as_str()) {
                Some(users) => users,
                None => Vec::new(),
            };
            let player_status = match rooms.get_room_player_status(key.as_str()) {
                Some(s) => s,
                None => crate::model::PlayerStatus::Paused(0),
            };
            let announce = match rooms.get_room_player_status(room_id.as_str()) {
                Some(status) => {
                    let to = rooms.broadcast_targets(room_id.as_str(), user_id);
                    let listed = crate::model::copy_metas(&users);
                    Some(Dispatch {
                        to,
                        message: Message::ServerMessage(ServerMessage::UserJoined(UserJoined {
                            new_user: user_id,
                            users: listed,
                            player_status: status,
                        })),
                    })
                },
                None => None,
            };
            let info = RoomJoinInfo { room_id: key, user_id, users, player_status, rtc_config };
            Ok(Joined { info, announce })
        },
    }
}

/// Adds a member called `name`, with a fresh random id, to the room whose
/// code the member typed as `room_id`.
pub fn join_room(rooms: &mut RoomProvider, name: String, room_id: String, rtc_config: RtcConfig) -> (r: Result<Joined, RoomProviderError>)
    requires
        old(rooms).wf(),
    ensures
        final(rooms).wf(),
        r matches Ok(j) ==> is_random_id(j.info.user_id)
            && join_outcome(old(rooms)@, final(rooms)@, j.info.user_id, name, room_id@, rtc_config, r),
        r is Err ==> !old(rooms)@.dom().contains(spec_to_lowercase(room_id@)) && final(rooms)@ == old(rooms)@
            && r == Err::<Joined, RoomProviderError>(RoomProviderError::RoomDoesntExist),
{
    let user_id = new_user_id();
    join_room_as(rooms, user_id, name, room_id, rtc_config)
}

/// Takes member `user_id` out of room `room_id` when its connection ends
/// (the room keeps only the members with that id), and, if the room is still
/// open, prepares the notice for the others.
pub fn leave_room(rooms: &mut RoomProvider, room_id: &str, user_id: u128) -> (r: Option<Dispatch>)
    requires
        old(rooms).wf(),
    ensures
        final(rooms).wf(),
        user_removed(old(rooms)@, final(rooms)@, room_id@, user_id),
        !final(rooms)@.dom().contains(room_id@) ==> r is None,
        final(rooms)@.dom().contains(room_id@) ==> {
            &&& r is Some
            &&& r->0.to@ == targets(final(rooms)@, room_id@, user_id)
            &&& r->0.message matches Message::ServerMessage(ServerMessage::UserLeft(l))
            &&& l.user_left == user_id
            &&& l.users@ == metas(final(rooms)@[room_id@].users@)
            &&& l.player_status == final(rooms)@[room_id@].player_status
        },
{
    rooms.remove_user(room_id, user_id);
    match rooms.room_users(room_id) {
        None => None,
        Some(users) => match rooms.get_room_player_status(room_id) {
            None => None,
            Some(player_status) => {
                let to = rooms.broadcast_targets(room_id, user_id);
                Some(Dispatch {
                    to,
                    message: Message::ServerMessage(ServerMessage::UserLeft(UserLeft { user_left: user_id, users, player_status })),
                })
            },
        },
    }
}

/// Once member `callee` has been sent a call request at time `t1`, a call
/// request of its own before the cooldown has passed is refused: it only
/// gets the cooldown error back, and the rooms stay as they were.
pub proof fn lemma_call_request_cooldown(
    s0: Map<Seq<char>, Room>,
    s1: Map<Seq<char>, Room>,
    s2: Map<Seq<char>, Room>,
    room_id: Seq<char>,
    caller: u128,
    callee: u128,
    video: bool,
    audio: bool,
    t1: u64,
    r1: Option<Dispatch>,
    target: u128,
    video2: bool,
    audio2: bool,
    t2: u64,
    r2: Option<Dispatch>,
)
    requires
        relay_outcome(s0, s1, room_id, caller, Message::ClientMessage((caller, ClientMessage::RequestCall(callee, video, audio))), t1, r1),
        r1 matches Some(d) && d.message is ClientMessage,
        relay_outcome(s1, s2, room_id, callee, Message::ClientMessage((callee, ClientMessage::RequestCall(target, video2, audio2))), t2, r2),
        t1 <= t2,
        t2 - t1 < CALL_REQUEST_COOLDOWN_MS,
    ensures
        s2 == s1,
        r2 is Some,
        r2->0.to@ == seq![callee],
        r2->0.message matches Message::ServerMessage(ServerMessage::Error(text)) && text@ == spec_cooldown_text(),
{
    let users = s0[room_id].users@;
    let i = choose|i: int| {
        &&& is_first_with_id(users, callee, i)
        &&& s1 == s0.insert(room_id, s1[room_id])
        &&& s1[room_id].player_status == s0[room_id].player_status
        &&& s1[room_id].users@ == users.update(i, User { meta: users[i].meta, last_chat_request: Some(t1) })
    };
    let users1 = s1[room_id].users@;
    assert(s1.dom().contains(room_id));
    assert(is_first_with_id(users1, callee, i));
    assert(has_user(users1, callee));
    let j = choose|j: int| is_first_with_id(users1, callee, j);
    crate::room::lemma_first_unique(users1, callee, i, j);
    assert(spec_last_call_request(s1, room_id, callee) == Some(Some(t1)));
}

/// A member that receives a playback message relayed by the server ends up
/// with the same playback status as the server's room, when the two agreed
/// before.
pub proof fn lemma_playback_agrees<C>(
    rooms_before: Map<Seq<char>, Room>,
    rooms_after: Map<Seq<char>, Room>,
    room_id: Seq<char>,
    sender: u128,
    m: ClientMessage,
    now: u64,
    r: Option<Dispatch>,
    client_before: RoomManager<C>,
    client_after: RoomManager<C>,
    event: ClientEvent,
)
    requires
        m is Play || m is Pause || m is Seek || m is Update,
        relay_outcome(rooms_before, rooms_after, room_id, sender, Message::ClientMessage((sender, m)), now, r),
        rooms_before.dom().contains(room_id),
        client_before.room_info is Some,
        client_before.room_info->0.player_status == rooms_before[room_id].player_status,
        r is Some,
        client_outcome(client_before, client_after, r->0.message, event),
    ensures
        client_after.room_info is Some,
        client_after.room_info->0.player_status == rooms_after[room_id].player_status,
{
}

/// The ids of the members of `users`, in order.
pub open spec fn member_ids(users: Seq<User>) -> Seq<u128> {
    users.map_values(|u: User| u.meta.id)
}

/// `to` names members of `users` other than `excluded` only, and each of
/// them.
pub open spec fn reaches_other_members(to: Seq<u128>, users: Seq<User>, excluded: u128) -> bool {
    &&& forall|i: int| 0 <= i < to.len() ==> #[trigger] to[i] != excluded && member_ids(users).contains(to[i])
    &&& forall|j: int| 0 <= j < users.len() && (#[trigger] users[j]).meta.id != excluded ==> to.contains(users[j].meta.id)
}

/// A broadcast in an existing room reaches exactly the other members.
proof fn lemma_targets_reach_other_members(rooms: Map<Seq<char>, Room>, room_id: Seq<char>, excluded: u128)
    requires
        rooms.dom().contains(room_id),
    ensures
        reaches_other_members(targets(rooms, room_id, excluded), rooms[room_id].users@, excluded),
{
    let to = targets(rooms, room_id, excluded);
    let users = rooms[room_id].users@;
    lemma_broadcast_skips_excluded(rooms, room_id, excluded);
    assert forall|i: int| 0 <= i < to.len() implies #[trigger] to[i] != excluded && member_ids(users).contains(to[i]) by {
        lemma_broadcast_only_members(rooms, room_id, excluded, i);
        let j = choose|j: int| 0 <= j < users.len() && (#[trigger] users[j]).meta.id == to[i];
        assert(member_ids(users)[j] == to[i]);
    }
    assert forall|j: int| 0 <= j < users.len() && (#[trigger] users[j]).meta.id != excluded implies to.contains(users[j].meta.id) by {
        lemma_broadcast_reaches_others(rooms, room_id, excluded, j);
    }
}

/// Chat and call signalling on the server never change a room. Chat goes
/// on unchanged to every other member of the room and to nobody else. A
/// session description, a candidate or a share request addressed to `to`
/// reaches `to` alone, from the sender, when `to` is a member of the room,
/// and is dropped otherwise. A description marked as received, and
/// anything sent in another member's name, is dropped.
pub proof fn lemma_relayed_signalling(
    old: Map<Seq<char>, Room>,
    new: Map<Seq<char>, Room>,
    room_id: Seq<char>,
    user_id: u128,
    sender: u128,
    m: ClientMessage,
    now: u64,
    r: Option<Dispatch>,
)
    requires
        relay_outcome(old, new, room_id, user_id, Message::ClientMessage((sender, m)), now, r),
    ensures
        sender != user_id ==> r is None && new == old,
        sender == user_id && m is Chat ==> {
            &&& new == old
            &&& r is Some && r->0.message == Message::ClientMessage((sender, m))
            &&& old.dom().contains(room_id) ==> reaches_other_members(r->0.to@, old[room_id].users@, user_id)
            &&& !old.dom().contains(room_id) ==> r->0.to@.len() == 0
        },
        sender == user_id ==> (m matches ClientMessage::SendSessionDesc(to, desc) ==> {
            &&& new == old
            &&& if old.dom().contains(room_id) && exists|j: int| 0 <= j < old[room_id].users@.len() && (#[trigger] old[room_id].users@[j]).meta.id == to {
                r == Some(Dispatch { to: r->0.to, message: Message::ClientMessage((sender, ClientMessage::ReceivedSessionDesc(desc))) })
                    && r->0.to@ == seq![to]
            } else {
                r is None
            }
        }),
        sender == user_id ==> (m matches ClientMessage::ExchangeCandidate(to, c) ==> {
            &&& new == old
            &&& if old.dom().contains(room_id) && exists|j: int| 0 <= j < old[room_id].users@.len() && (#[trigger] old[room_id].users@[j]).meta.id == to {
                r == Some(Dispatch { to: r->0.to, message: Message::ClientMessage((sender, ClientMessage::ExchangeCandidate(sender, c))) })
                    && r->0.to@ == seq![to]
            } else {
                r is None
            }
        }),
        sender == user_id ==> (m matches ClientMessage::RequestVideoShare(to) ==> {
            &&& new == old
            &&& if old.dom().contains(room_id) && exists|j: int| 0 <= j < old[room_id].users@.len() && (#[trigger] old[room_id].users@[j]).meta.id == to {
                r == Some(Dispatch { to: r->0.to, message: Message::ClientMessage((sender, ClientMessage::RequestVideoShare(sender))) })
                    && r->0.to@ == seq![to]
            } else {
                r is None
            }
        }),
        m is ReceivedSessionDesc ==> r is None && new == old,
{
    if sender == user_id && m is Chat && old.dom().contains(room_id) {
        lemma_targets_reach_other_members(old, room_id, user_id);
    }
}

/// What relayed playback does to a room on the server. `Play(t)` and
/// `Pause(t)` set the room playing or paused at `t`; `Seek(t)` and
/// `Update(t)` move its position to `t` and never start or stop it. The
/// room keeps its members, every other room stays as it was, and the
/// message goes on to every other member.
pub proof fn lemma_relayed_playback_status(
    old: Map<Seq<char>, Room>,
    new: Map<Seq<char>, Room>,
    room_id: Seq<char>,
    user_id: u128,
    m: ClientMessage,
    now: u64,
    r: Option<Dispatch>,
)
    requires
        old.dom().contains(room_id),
        relay_outcome(old, new, room_id, user_id, Message::ClientMessage((user_id, m)), now, r),
    ensures
        m matches ClientMessage::Play(t) ==> new[room_id].player_status == PlayerStatus::Playing(t),
        m matches ClientMessage::Pause(t) ==> new[room_id].player_status == PlayerStatus::Paused(t),
        m matches ClientMessage::Seek(t) ==> new[room_id].player_status == (if old[room_id].player_status is Playing {
            PlayerStatus::Playing(t)
        } else {
            PlayerStatus::Paused(t)
        }),
        m matches ClientMessage::Update(t) ==> new[room_id].player_status == (if old[room_id].player_status is Playing {
            PlayerStatus::Playing(t)
        } else {
            PlayerStatus::Paused(t)
        }),
        (m is Play || m is Pause || m is Seek || m is Update) ==> {
            &&& new.dom() == old.dom()
            &&& new[room_id].users == old[room_id].users
            &&& forall|k: Seq<char>| k != room_id && old.dom().contains(k) ==> #[trigger] new[k] == old[k]
            &&& r is Some && r->0.to@ == others(old[room_id].users@, user_id)
                && r->0.message == Message::ClientMessage((user_id, m))
            &&& reaches_other_members(r->0.to@, old[room_id].users@, user_id)
        },
{
    if m is Play || m is Pause || m is Seek || m is Update {
        assert(new.dom() =~= old.dom());
        lemma_targets_reach_other_members(old, room_id, user_id);
    }
}

/// What choosing a video and asking for a call do to a room on the server.
/// When a member of the room says which video it selected, exactly its
/// entry (the first with its id) now shows that video as selected; every
/// other entry, the order of members and the playback status stay, and the
/// news goes to every other member. When a call request that is not held
/// back by the cooldown names a member of the room, that member alone is
/// asked, in the sender's name and with the video and audio asked for, and
/// its entry (the first with its id) records the time of the request;
/// nothing else in the room changes.
pub proof fn lemma_relayed_selection_and_call(
    old: Map<Seq<char>, Room>,
    new: Map<Seq<char>, Room>,
    room_id: Seq<char>,
    user_id: u128,
    m: ClientMessage,
    now: u64,
    r: Option<Dispatch>,
)
    requires
        old.dom().contains(room_id),
        relay_outcome(old, new, room_id, user_id, Message::ClientMessage((user_id, m)), now, r),
    ensures
        m matches ClientMessage::SetVideoMeta(meta) ==> (member_ids(old[room_id].users@).contains(user_id) ==> {
            &&& new.dom() == old.dom()
            &&& new[room_id].player_status == old[room_id].player_status
            &&& new[room_id].users@.len() == old[room_id].users@.len()
            &&& exists|i: int| {
                &&& 0 <= i < old[room_id].users@.len()
                &&& #[trigger] old[room_id].users@[i].meta.id == user_id
                &&& new[room_id].users@[i].meta.id == user_id
                &&& new[room_id].users@[i].meta.name == old[room_id].users@[i].meta.name
                &&& new[room_id].users@[i].meta.state == UserState::VideoSelected(meta)
                &&& forall|j: int| 0 <= j < i ==> (#[trigger] old[room_id].users@[j]).meta.id != user_id
                &&& forall|j: int| 0 <= j < old[room_id].users@.len() && j != i
                    ==> #[trigger] new[room_id].users@[j] == old[room_id].users@[j]
            }
            &&& r is Some && r->0.message == Message::ClientMessage((user_id, m))
            &&& reaches_other_members(r->0.to@, old[room_id].users@, user_id)
        }),
        m matches ClientMessage::RequestCall(to, video, audio) ==> (
            (member_ids(old[room_id].users@).contains(to)
                && !(spec_last_call_request(old, room_id, user_id) matches Some(Some(last)) && in_cooldown(last, now))) ==> {
            &&& r is Some && r->0.to@ == seq![to]
            &&& r->0.message == Message::ClientMessage((user_id, ClientMessage::RequestCall(user_id, video, audio)))
            &&& new.dom() == old.dom()
            &&& new[room_id].player_status == old[room_id].player_status
            &&& new[room_id].users@.len() == old[room_id].users@.len()
            &&& exists|i: int| {
                &&& 0 <= i < old[room_id].users@.len()
                &&& #[trigger] old[room_id].users@[i].meta.id == to
                &&& new[room_id].users@[i].meta == old[room_id].users@[i].meta
                &&& new[room_id].users@[i].last_chat_request == Some(now)
                &&& forall|j: int| 0 <= j < old[room_id].users@.len() && j != i
                    ==> #[trigger] new[room_id].users@[j] == old[room_id].users@[j]
            }
        }),
{
    let users = old[room_id].users@;
    if let ClientMessage::SetVideoMeta(meta) = m {
        if member_ids(users).contains(user_id) {
            let k = choose|k: int| 0 <= k < member_ids(users).len() && member_ids(users)[k] == user_id;
            assert(users[k].meta.id == user_id);
            assert(has_user(users, user_id));
            let i = choose|i: int| {
                &&& is_first_with_id(users, user_id, i)
                &&& new == old.insert(room_id, new[room_id])
                &&& new[room_id].player_status == old[room_id].player_status
                &&& new[room_id].users@ == users.update(i, user_with_state(users[i], UserState::VideoSelected(meta)))
            };
            assert(new.dom() =~= old.dom());
            assert(new[room_id].users@[i].meta.state == UserState::VideoSelected(meta));
            lemma_targets_reach_other_members(old, room_id, user_id);
        }
    }
    if let ClientMessage::RequestCall(to, video, audio) = m {
        if member_ids(users).contains(to) && !(spec_last_call_request(old, room_id, user_id) matches Some(Some(last)) && in_cooldown(last, now)) {
            let k = choose|k: int| 0 <= k < member_ids(users).len() && member_ids(users)[k] == to;
            assert(users[k].meta.id == to);
            assert(has_user(users, to));
            let i = choose|i: int| {
                &&& is_first_with_id(users, to, i)
                &&& new == old.insert(room_id, new[room_id])
                &&& new[room_id].player_status == old[room_id].player_status
                &&& new[room_id].users@ == users.update(i, User { meta: users[i].meta, last_chat_request: Some(now) })
            };
            assert(new.dom() =~= old.dom());
        }
    }
}

} // verus!
