//! A client's session with a room: what it knows of the room, how it reacts
//! to what arrives over the connection, and what it sends.

use vstd::prelude::*;
use crate::message::{ClientMessage, Message, RTCSessionDesc, RoomJoinInfo, RtcConfig, ServerMessage, UserJoined, UserLeft};
use crate::model::{PlayerStatus, Seconds, UserMeta, UserState, VideoMeta};
use crate::params::{HostParams, JoinParams, HOST_ROOM, JOIN_ROOM};
use crate::peer::CallPermissions;
use serde_urlencoded::ser::Error as UrlEncodeError;
use std::collections::HashMap;

verus! {

/// What the client knows about the room it is in.
#[derive(Debug)]
pub struct RoomInfo {
    pub id: String,
    pub user_id: u128,
    pub users: Vec<UserMeta>,
    pub player_status: PlayerStatus,
}

/// What the video player is told to do by the rest of the room.
#[derive(Debug, Clone, Copy, PartialEq, Eq, Structural)]
pub enum PlayerMessages {
    Play(Seconds),
    Pause(Seconds),
    Update(Seconds),
    Seek(Seconds),
}

/// How a message is sent: always, or only when the socket is not backed up.
#[derive(Debug, Clone, Copy, PartialEq, Eq, Structural)]
pub enum SendType {
    Reliable,
    UnReliablle,
}

/// Why the session refused a request.
#[derive(Debug)]
pub enum RoomManagerError {
    AlreadyConnectedToRoom,
    NotConnectedToRoom,
    ParamError(UrlEncodeError),
}

impl RoomManagerError {
    /// The error's text.
    pub fn message(&self) -> (r: String)
        ensures
            r@ == (match *self {
                RoomManagerError::AlreadyConnectedToRoom => "already connected to room"@,
                RoomManagerError::NotConnectedToRoom => "not connected to room"@,
                RoomManagerError::ParamError(_) => "Param failed to encode"@,
            }),
    {
        match self {
            RoomManagerError::AlreadyConnectedToRoom => String::from_str("already connected to room"),
            RoomManagerError::NotConnectedToRoom => String::from_str("not connected to room"),
            RoomManagerError::ParamError(_) => String::from_str("Param failed to encode"),
        }
    }
}

/// The state of the websocket as the browser reports it.
#[derive(Debug, Clone, Copy, PartialEq, Eq, Structural)]
pub enum ConnectionReadyState {
    Connecting,
    Open,
    Closing,
    Closed,
}

/// An open room connection: the connection itself, the chat so far, and
/// the relay servers the room uses.
#[derive(Debug)]
pub struct RoomConnectionInfo<C> {
    pub connection: C,
    pub chat_history: Vec<(UserMeta, String)>,
    pub rtc_config: RtcConfig,
}

/// Where the session is: not connected, waiting for the room to answer on
/// connection `C`, or in a room.
#[derive(Debug)]
pub enum RoomState<C> {
    Disconnected,
    Connecting(C),
    Connected(RoomConnectionInfo<C>),
}

impl<C> RoomState<C> {
    /// Returns `true` if the state is [`RoomState::Connecting`].
    pub fn is_connecting(&self) -> (r: bool)
        ensures
            r == (*self is Connecting),
    {
        match self {
            RoomState::Connecting(_) => true,
            _ => false,
        }
    }

    /// Returns `true` if the state is [`RoomState::Connected`].
    pub fn is_connected(&self) -> (r: bool)
        ensures
            r == (*self is Connected),
    {
        match self {
            RoomState::Connected(_) => true,
            _ => false,
        }
    }

    /// Returns `true` if the state is [`RoomState::Disconnected`].
    pub fn is_disconnected(&self) -> (r: bool)
        ensures
            r == (*self is Disconnected),
    {
        match self {
            RoomState::Disconnected => true,
            _ => false,
        }
    }

    /// The room connection, when in a room.
    pub fn as_connected(&self) -> (r: Option<&RoomConnectionInfo<C>>)
        ensures
            match *self {
                RoomState::Connected(info) => r == Some(&info),
                _ => r is None,
            },
    {
        match self {
            RoomState::Connected(info) => Some(info),
            _ => None,
        }
    }
}

/// A notification shown to the person using the client.
#[derive(Debug, Clone, Copy, PartialEq, Eq, Structural)]
pub enum ToastType {
    Info,
    Success,
    Failed,
}

/// A notification: its text and its kind.
#[derive(Debug)]
pub struct Toast {
    pub message: String,
    pub kind: ToastType,
}

/// `t` says `message` and is of kind `kind`.
pub open spec fn toast_is(t: Toast, message: Seq<char>, kind: ToastType) -> bool {
    t.message@ == message && t.kind == kind
}

/// The notifications shown so far, oldest first; the last one is on
/// screen.
#[derive(Debug)]
pub struct Toaster {
    pub shown: Vec<Toast>,
}

impl Toaster {
    /// Nothing shown yet.
    pub fn new() -> (r: Toaster)
        ensures
            r.shown@.len() == 0,
    {
        Toaster { shown: Vec::new() }
    }

    /// Shows `toast`, in place of the one on screen.
    pub fn toast(&mut self, toast: Toast)
        ensures
            final(self).shown@ == old(self).shown@.push(toast),
    {
        self.shown.push(toast);
    }

    /// The notification on screen, if any.
    pub fn current(&self) -> (r: Option<&Toast>)
        ensures
            self.shown@.len() == 0 ==> r is None,
            self.shown@.len() > 0 ==> r == Some(&self.shown@.last()),
    {
        if self.shown.len() == 0 {
            None
        } else {
            Some(&self.shown[self.shown.len() - 1])
        }
    }
}

/// The number of times the websocket of a session is reopened after it
/// dropped: never.
pub const RECONNECT_LIMIT: u32 = 0;

/// What the rest of the client is asked to do after a message arrived.
#[derive(Debug)]
pub enum ClientEvent {
    Nothing,
    Navigate(String),
    Toast(ToastType, String),
    Player(PlayerMessages),
    Chat(UserMeta, String),
    IceCandidate(u128, String),
    SessionDesc(u128, RTCSessionDesc),
    CallRequest(u128, bool, bool),
    ShareRequest(u128),
}

/// The first position of member `id` in `users`.
pub open spec fn is_first_member(users: Seq<UserMeta>, id: u128, i: int) -> bool {
    &&& 0 <= i < users.len()
    &&& users[i].id == id
    &&& forall|j: int| 0 <= j < i ==> (#[trigger] users[j]).id != id
}

/// Some member of `users` has id `id`.
pub open spec fn has_member(users: Seq<UserMeta>, id: u128) -> bool {
    exists|i: int| 0 <= i < users.len() && (#[trigger] users[i]).id == id
}

fn first_member(users: &Vec<UserMeta>, id: u128) -> (r: Option<usize>)
    ensures
        match r {
            Some(i) => is_first_member(users@, id, i as int),
            None => !has_member(users@, id),
        },
{
    let mut i: usize = 0;
    while i < users.len()
        invariant
            i <= users.len(),
            forall|j: int| 0 <= j < i ==> (#[trigger] users@[j]).id != id,
        decreases users.len() - i,
    {
        if users[i].id == id {
            return Some(i);
        }
        i = i + 1;
    }
    None
}

/// `meta` with the selection replaced by `state`.
pub open spec fn meta_with_state(meta: UserMeta, state: UserState) -> UserMeta {
    UserMeta { id: meta.id, name: meta.name, state }
}

/// The selection a member ends up with after choosing the video called
/// `name`: the name replaces the old one, a known length is kept.
pub open spec fn selected_named(state: UserState, name: String) -> VideoMeta {
    match state {
        UserState::VideoNotSelected => VideoMeta { name, duration: None },
        UserState::VideoSelected(m) => VideoMeta { name, duration: m.duration },
    }
}

/// The Unicode `White_Space` characters, which `str::trim` removes.
pub open spec fn is_white_space(c: char) -> bool {
    let n: u32 = c as u32;
    (0x09 <= n <= 0x0D) || n == 0x20 || n == 0x85 || n == 0xA0 || n == 0x1680 || (0x2000 <= n
        <= 0x200A) || n == 0x2028 || n == 0x2029 || n == 0x202F || n == 0x205F || n == 0x3000
}

/// Whether `s` is empty once trimmed: every character is white space.
pub open spec fn is_blank(s: Seq<char>) -> bool {
    forall|i: int| 0 <= i < s.len() ==> is_white_space(#[trigger] s[i])
}

fn char_is_white_space(c: char) -> (r: bool)
    ensures
        r == is_white_space(c),
{
    let n: u32 = c as u32;
    (0x09 <= n && n <= 0x0D) || n == 0x20 || n == 0x85 || n == 0xA0 || n == 0x1680 || (0x2000 <= n
        && n <= 0x200A) || n == 0x2028 || n == 0x2029 || n == 0x202F || n == 0x205F || n == 0x3000
}

/// Whether the text would be empty after trimming white space.
pub fn trims_to_empty(s: &str) -> (r: bool)
    ensures
        r == is_blank(s@),
{
    let mut blank = true;
    for c in it: s.chars()
        invariant
            it.seq() == s@,
            blank == (forall|j: int| 0 <= j < it.index() ==> is_white_space(#[trigger] s@[j])),
    {
        if !char_is_white_space(c) {
            blank = false;
        }
    }
    blank
}

/// What the host and join forms hand to `host_join` when submitted: the
/// name, and for joining the room code. Nothing while the name, or the room
/// code of a join, is empty.
pub fn form_request(name: String, room_code: Option<String>) -> (r: Option<(String, Option<String>)>)
    ensures
        r is None <==> (name@.len() == 0 || (room_code matches Some(c) && c@.len() == 0)),
        r matches Some(req) ==> req.0@ == name@ && match (req.1, room_code) {
            (Some(a), Some(b)) => a@ == b@,
            (None, None) => true,
            _ => false,
        },
{
    if name.as_str().is_empty() {
        return None;
    }
    if let Some(c) = &room_code {
        if c.as_str().is_empty() {
            return None;
        }
    }
    Some((name, room_code))
}

/// A client's session with a room. `C` is the connection the client holds
/// while it is connecting or connected.
#[derive(Debug)]
pub struct RoomManager<C> {
    pub state: RoomState<C>,
    pub room_info: Option<RoomInfo>,
    pub player_message: Option<PlayerMessages>,
    pub vc_permission: CallPermissions,
}

/// `info` with its playback status replaced.
pub open spec fn info_with_status(info: RoomInfo, status: PlayerStatus) -> RoomInfo {
    RoomInfo { id: info.id, user_id: info.user_id, users: info.users, player_status: status }
}

/// The room information with its playback status replaced, when there is
/// room information.
pub open spec fn spec_with_status(room_info: Option<RoomInfo>, status: PlayerStatus) -> Option<RoomInfo> {
    match room_info {
        Some(info) => Some(info_with_status(info, status)),
        None => None,
    }
}

/// What `send_message` hands to the connection: the message tagged with the
/// client's own id, when the client is in a room and the send type allows
/// it (an unreliable message goes only when the socket holds fewer than
/// five buffered bytes).
pub open spec fn spec_outgoing<C>(
    m: RoomManager<C>,
    message: ClientMessage,
    send_type: SendType,
    buffered_amount: Option<u32>,
) -> Option<Message> {
    if m.room_info is Some && m.state is Connected && (send_type == SendType::Reliable
        || (buffered_amount matches Some(a) && a < 5)) {
        Some(Message::ClientMessage((m.room_info->0.user_id, message)))
    } else {
        None
    }
}

/// The client is in a room whose member list includes itself.
pub open spec fn knows_self(room_info: Option<RoomInfo>) -> bool {
    room_info is Some && has_member(room_info->0.users@, room_info->0.user_id)
}

/// The member's own entry in the room information, if it is listed.
pub open spec fn own_index(info: RoomInfo, i: int) -> bool {
    is_first_member(info.users@, info.user_id, i)
}

impl<C> RoomManager<C> {
    /// A session that is not connected to any room.
    pub fn new() -> (r: RoomManager<C>)
        ensures
            r.state is Disconnected,
            r.room_info is None,
            r.player_message is None,
            r.vc_permission@ == Map::<u128, (bool, bool)>::empty(),
    {
        RoomManager {
            state: RoomState::Disconnected,
            room_info: None,
            player_message: None,
            vc_permission: CallPermissions::new(),
        }
    }

    /// What the client knows about its room.
    pub fn get_room_info(&self) -> (r: &Option<RoomInfo>)
        ensures
            *r == self.room_info,
    {
        &self.room_info
    }

    /// The last instruction for the video player.
    pub fn get_player_messages(&self) -> (r: Option<PlayerMessages>)
        ensures
            r == self.player_message,
    {
        self.player_message
    }

    /// The connection, while connecting or connected.
    pub fn message_signal(&self) -> (r: Result<&C, RoomManagerError>)
        ensures
            match self.state {
                RoomState::Disconnected => r matches Err(RoomManagerError::NotConnectedToRoom),
                RoomState::Connecting(c) => r == Ok::<&C, RoomManagerError>(&c),
                RoomState::Connected(info) => r == Ok::<&C, RoomManagerError>(&info.connection),
            },
    {
        match &self.state {
            RoomState::Disconnected => Err(RoomManagerError::NotConnectedToRoom),
            RoomState::Connecting(c) => Ok(c),
            RoomState::Connected(info) => Ok(&info.connection),
        }
    }

    /// The room's playback status, as far as the client knows.
    pub fn get_player_status(&self) -> (r: Option<PlayerStatus>)
        ensures
            r == (match self.room_info {
                Some(info) => Some(info.player_status),
                None => None::<PlayerStatus>,
            }),
    {
        match &self.room_info {
            Some(info) => Some(info.player_status),
            None => None,
        }
    }

    /// Records a new playback status, when the client is in a room.
    pub fn set_player_status(&mut self, player_status: PlayerStatus)
        ensures
            final(self).vc_permission@ == old(self).vc_permission@,
            final(self).room_info == spec_with_status(old(self).room_info, player_status),
            final(self).state == old(self).state,
            final(self).player_message == old(self).player_message,
    {
        let mut info: Option<RoomInfo> = None;
        std::mem::swap(&mut info, &mut self.room_info);
        let updated = match info {
            Some(i) => Some(RoomInfo { id: i.id, user_id: i.user_id, users: i.users, player_status }),
            None => None,
        };
        self.room_info = updated;
    }

    /// What to hand to the connection to send `message` to the room; see
    /// `spec_outgoing`. `buffered_amount` is how many bytes the socket has
    /// not sent yet, when there is a socket.
    pub fn send_message(&self, message: ClientMessage, send_type: SendType, buffered_amount: Option<u32>) -> (r: Option<Message>)
        ensures
            r == spec_outgoing(*self, message, send_type, buffered_amount),
    {
        let player_id = match &self.room_info {
            Some(info) => info.user_id,
            None => return None,
        };
        if !self.state.is_connected() {
            return None;
        }
        match send_type {
            SendType::Reliable => Some(Message::ClientMessage((player_id, message))),
            SendType::UnReliablle => match buffered_amount {
                Some(a) => if a < 5 {
                    Some(Message::ClientMessage((player_id, message)))
                } else {
                    None
                },
                None => None,
            },
        }
    }
}

impl<C> RoomManager<C> {
    /// Records that the client selected the video called `video_name`: its
    /// own entry keeps a known length and takes the new name. Returns what
    /// to send to tell the room.
    pub fn set_selected_video(&mut self, video_name: String) -> (r: Option<Message>)
        ensures
            final(self).vc_permission@ == old(self).vc_permission@,
            final(self).state == old(self).state,
            final(self).player_message == old(self).player_message,
            !knows_self(old(self).room_info) ==> {
                &&& r is None
                &&& final(self).room_info == old(self).room_info
            },
            knows_self(old(self).room_info) ==> exists|i: int| #![trigger own_index(old(self).room_info->0, i)] {
                let info = old(self).room_info->0;
                let meta = selected_named(info.users@[i].state, video_name);
                &&& own_index(info, i)
                &&& final(self).room_info matches Some(n)
                &&& n.id == info.id && n.user_id == info.user_id && n.player_status == info.player_status
                &&& n.users@ == info.users@.update(i, meta_with_state(info.users@[i], UserState::VideoSelected(meta)))
                &&& r == spec_outgoing(*old(self), ClientMessage::SetVideoMeta(meta), SendType::Reliable, None)
            },
    {
        let mut slot: Option<RoomInfo> = None;
        std::mem::swap(&mut slot, &mut self.room_info);
        let mut info = match slot {
            None => return None,
            Some(info) => info,
        };
        let ghost before = info;
        let i = match first_member(&info.users, info.user_id) {
            None => {
                self.room_info = Some(info);
                return None;
            },
            Some(i) => i,
        };
        let old_meta = info.users[i].copy();
        let meta = match old_meta.state {
            UserState::VideoNotSelected => VideoMeta { name: video_name, duration: None },
            UserState::VideoSelected(m) => VideoMeta { name: video_name, duration: m.duration },
        };
        let sent = meta.copy();
        let ghost m = meta;
        info.users.set(i, UserMeta { id: old_meta.id, name: old_meta.name, state: UserState::VideoSelected(meta) });
        assert(own_index(before, i as int));
        assert(m == selected_named(before.users@[i as int].state, video_name));
        assert(info.users@ == before.users@.update(i as int, meta_with_state(before.users@[i as int], UserState::VideoSelected(m))));
        self.room_info = Some(info);
        let out = self.send_message(ClientMessage::SetVideoMeta(sent), SendType::Reliable, None);
        assert(out == spec_outgoing(*old(self), ClientMessage::SetVideoMeta(m), SendType::Reliable, None));
        out
    }
}

impl<C> RoomManager<C> {
    /// Records the length of the video the client selected. Nothing happens
    /// when the client has not selected a video. Returns what to send to
    /// tell the room.
    pub fn set_video_duration(&mut self, duration: Seconds) -> (r: Option<Message>)
        ensures
            final(self).vc_permission@ == old(self).vc_permission@,
            final(self).state == old(self).state,
            final(self).player_message == old(self).player_message,
            !selected_own_video(old(self).room_info) ==> {
                &&& r is None
                &&& final(self).room_info == old(self).room_info
            },
            selected_own_video(old(self).room_info) ==> exists|i: int| #![trigger own_index(old(self).room_info->0, i)] {
                let info = old(self).room_info->0;
                let meta = VideoMeta { name: info.users@[i].state->VideoSelected_0.name, duration: Some(duration) };
                &&& own_index(info, i)
                &&& final(self).room_info matches Some(n)
                &&& n.id == info.id && n.user_id == info.user_id && n.player_status == info.player_status
                &&& n.users@ == info.users@.update(i, meta_with_state(info.users@[i], UserState::VideoSelected(meta)))
                &&& r == spec_outgoing(*old(self), ClientMessage::SetVideoMeta(meta), SendType::Reliable, None)
            },
    {
        let mut slot: Option<RoomInfo> = None;
        std::mem::swap(&mut slot, &mut self.room_info);
        let mut info = match slot {
            None => return None,
            Some(info) => info,
        };
        let ghost before = info;
        let i = match first_member(&info.users, info.user_id) {
            None => {
                self.room_info = Some(info);
                return None;
            },
            Some(i) => i,
        };
        let old_meta = info.users[i].copy();
        let meta = match old_meta.state {
            UserState::VideoNotSelected => {
                self.room_info = Some(info);
                return None;
            },
            UserState::VideoSelected(m) => VideoMeta { name: m.name, duration: Some(duration) },
        };
        let sent = meta.copy();
        let ghost m = meta;
        info.users.set(i, UserMeta { id: old_meta.id, name: old_meta.name, state: UserState::VideoSelected(meta) });
        assert(own_index(before, i as int));
        assert(info.users@ == before.users@.update(i as int, meta_with_state(before.users@[i as int], UserState::VideoSelected(m))));
        self.room_info = Some(info);
        let out = self.send_message(ClientMessage::SetVideoMeta(sent), SendType::Reliable, None);
        assert(out == spec_outgoing(*old(self), ClientMessage::SetVideoMeta(m), SendType::Reliable, None));
        out
    }

    /// Adds the client's own chat line to the room's history and returns
    /// what to send to the room. Lines that are empty once trimmed are
    /// dropped, and nothing happens when the client is not listed in its
    /// room.
    pub fn send_chat(&mut self, msg: String) -> (r: Option<Message>)
        ensures
            final(self).vc_permission@ == old(self).vc_permission@,
            final(self).room_info == old(self).room_info,
            final(self).player_message == old(self).player_message,
            is_blank(msg@) || !knows_self(old(self).room_info) ==> {
                &&& r is None
                &&& final(self).state == old(self).state
            },
            !is_blank(msg@) && knows_self(old(self).room_info) ==> exists|i: int| #![trigger own_index(old(self).room_info->0, i)] {
                let info = old(self).room_info->0;
                &&& own_index(info, i)
                &&& r == spec_outgoing(*old(self), ClientMessage::Chat(msg), SendType::Reliable, None)
                &&& chat_added(old(self).state, final(self).state, info.users@[i], msg)
            },
    {
        if trims_to_empty(msg.as_str()) {
            return None;
        }
        let i = match &self.room_info {
            None => return None,
            Some(info) => match first_member(&info.users, info.user_id) {
                None => return None,
                Some(i) => i,
            },
        };
        let user = match &self.room_info {
            Some(info) => info.users[i].copy(),
            None => return None,
        };
        let line = msg.clone();
        let ghost before = self.state;
        let mut st: RoomState<C> = RoomState::Disconnected;
        std::mem::swap(&mut st, &mut self.state);
        let st = match st {
            RoomState::Connected(info) => {
                let mut history = info.chat_history;
                history.push((user, line));
                RoomState::Connected(RoomConnectionInfo { connection: info.connection, chat_history: history, rtc_config: info.rtc_config })
            },
            other => other,
        };
        self.state = st;
        assert(own_index(self.room_info->0, i as int));
        assert(chat_added(before, self.state, self.room_info->0.users@[i as int], msg));
        assert(self.state is Connected <==> before is Connected);
        let ghost text = msg;
        let out = self.send_message(ClientMessage::Chat(msg), SendType::Reliable, None);
        assert(out == spec_outgoing(*old(self), ClientMessage::Chat(text), SendType::Reliable, None));
        out
    }
}

/// The client is in a room, is listed in it, and has selected a video.
pub open spec fn selected_own_video(room_info: Option<RoomInfo>) -> bool {
    &&& knows_self(room_info)
    &&& exists|i: int| #[trigger] own_index(room_info->0, i) && room_info->0.users@[i].state is VideoSelected
}

/// `new` is `old` with the chat line `(user, text)` added to the history
/// when in a room; otherwise `new` is `old`.
pub open spec fn chat_added<C>(old: RoomState<C>, new: RoomState<C>, user: UserMeta, text: String) -> bool {
    match old {
        RoomState::Connected(info) => new matches RoomState::Connected(n) && n.connection == info.connection
            && n.rtc_config == info.rtc_config && n.chat_history@ == info.chat_history@.push((user, text)),
        _ => new == old,
    }
}

/// The page a client shows for room `id`: `/room/` followed by the code.
pub open spec fn room_path(id: Seq<char>) -> Seq<char> {
    "/room/"@ + id
}

/// The websocket address a client connects to: the server's endpoint, the
/// path that opens or joins a room, and the query.
pub open spec fn spec_connect_url(endpoint: Seq<char>, name: Seq<char>, room_code: Option<Seq<char>>) -> Seq<char> {
    match room_code {
        Some(code) => endpoint + JOIN_ROOM@ + "?"@ + crate::params::spec_form_urlencoded(seq![("name"@, name), ("room_id"@, code)]),
        None => endpoint + HOST_ROOM@ + "?"@ + crate::params::spec_form_urlencoded(seq![("name"@, name)]),
    }
}

impl<C> RoomManager<C> {
    /// The chat so far, when in a room.
    pub fn get_chat_signal(&self) -> (r: Option<&Vec<(UserMeta, String)>>)
        ensures
            match self.state {
                RoomState::Connected(info) => r == Some(&info.chat_history),
                _ => r is None,
            },
    {
        match &self.state {
            RoomState::Connected(info) => Some(&info.chat_history),
            _ => None,
        }
    }

    /// Follows the websocket's state: once it is open the client is told
    /// so; once it closes the session forgets its room.
    pub fn on_ready_state(&mut self, ready_state: ConnectionReadyState) -> (r: Option<(ToastType, String)>)
        ensures
            final(self).vc_permission@ == old(self).vc_permission@,
            final(self).player_message == old(self).player_message,
            match ready_state {
                ConnectionReadyState::Connecting => r is None && *final(self) == *old(self),
                ConnectionReadyState::Open => {
                    &&& *final(self) == *old(self)
                    &&& r matches Some(t) && t.0 == ToastType::Success && t.1@ == "Connection Successful"@
                },
                ConnectionReadyState::Closing | ConnectionReadyState::Closed => {
                    &&& r is None
                    &&& final(self).state is Disconnected
                    &&& final(self).room_info is None
                },
            },
    {
        match ready_state {
            ConnectionReadyState::Connecting => None,
            ConnectionReadyState::Open => Some((ToastType::Success, String::from_str("Connection Successful"))),
            ConnectionReadyState::Closing | ConnectionReadyState::Closed => {
                self.state = RoomState::Disconnected;
                self.room_info = None;
                None
            },
        }
    }

    /// The websocket reported an error: the user is told the connection
    /// failed. The session itself follows the socket's state instead.
    pub fn on_socket_error(&self, toaster: &mut Toaster)
        ensures
            final(toaster).shown@.len() == old(toaster).shown@.len() + 1,
            final(toaster).shown@.subrange(0, old(toaster).shown@.len() as int) == old(toaster).shown@,
            toast_is(final(toaster).shown@.last(), "Connection Failed"@, ToastType::Failed),
    {
        toaster.toast(Toast { message: String::from_str("Connection Failed"), kind: ToastType::Failed });
        assert(toaster.shown@.subrange(0, old(toaster).shown@.len() as int) =~= old(toaster).shown@);
    }

    /// The websocket was closed, by the server or the network, with
    /// `reason` (such as the server's refusal of an unknown room code): the
    /// user is shown the reason as a failure.
    pub fn on_socket_close(&self, reason: String, toaster: &mut Toaster)
        ensures
            final(toaster).shown@ == old(toaster).shown@.push((Toast { message: reason, kind: ToastType::Failed })),
    {
        toaster.toast(Toast { message: reason, kind: ToastType::Failed });
    }

    /// Starts connecting to a room: joins the room `room_code`, or opens a
    /// new one when there is none, under the name `name`, and tells the
    /// user so. Refused while connecting or connected, with a notice.
    /// Otherwise builds the websocket address, lets `connect` open the
    /// connection to it with no reconnection, and waits for the room's
    /// answer on that connection; the query always encodes, so
    /// `ParamError` does not arise.
    pub fn host_join<F: FnOnce(&str, u32) -> C>(
        &mut self,
        name: String,
        room_code: Option<String>,
        main_endpoint: &str,
        toaster: &mut Toaster,
        connect: F,
    ) -> (r: Result<String, RoomManagerError>)
        requires
            forall|u: &str, limit: u32| connect.requires((u, limit)),
        ensures
            final(self).vc_permission@ == old(self).vc_permission@,
            final(self).room_info == old(self).room_info,
            final(self).player_message == old(self).player_message,
            final(toaster).shown@.len() > old(toaster).shown@.len(),
            final(toaster).shown@.subrange(0, old(toaster).shown@.len() as int) == old(toaster).shown@,
            toast_is(final(toaster).shown@[old(toaster).shown@.len() as int], "Connecting to server"@, ToastType::Info),
            !(old(self).state is Disconnected) ==> {
                &&& r matches Err(RoomManagerError::AlreadyConnectedToRoom)
                &&& final(self).state == old(self).state
                &&& final(toaster).shown@.len() == old(toaster).shown@.len() + 2
                &&& toast_is(final(toaster).shown@[old(toaster).shown@.len() + 1int], "Already connected to a room"@, ToastType::Failed)
            },
            old(self).state is Disconnected ==> {
                &&& final(toaster).shown@.len() == old(toaster).shown@.len() + 1
                &&& match r {
                    Ok(url) => {
                        &&& url@ == spec_connect_url(main_endpoint@, name@, match room_code {
                            Some(c) => Some(c@),
                            None => None,
                        })
                        &&& final(self).state matches RoomState::Connecting(c)
                            && exists|u: &str| u@ == url@ && connect.ensures((u, RECONNECT_LIMIT), c)
                    },
                    Err(_) => false,
                }
            },
    {
        toaster.toast(Toast { message: String::from_str("Connecting to server"), kind: ToastType::Info });
        if !self.state.is_disconnected() {
            toaster.toast(Toast { message: String::from_str("Already connected to a room"), kind: ToastType::Failed });
            assert(toaster.shown@.subrange(0, old(toaster).shown@.len() as int) =~= old(toaster).shown@);
            return Err(RoomManagerError::AlreadyConnectedToRoom);
        }
        assert(toaster.shown@.subrange(0, old(toaster).shown@.len() as int) =~= old(toaster).shown@);
        let ghost code_view: Option<Seq<char>> = if room_code is Some {
            Some(room_code->0@)
        } else {
            None
        };
        let ghost name_view = name@;
        let (path, query) = match room_code {
            Some(room_id) => (JOIN_ROOM, JoinParams { name, room_id }.to_query()),
            None => (HOST_ROOM, HostParams { name }.to_query()),
        };
        let query = match query {
            Ok(q) => q,
            Err(e) => return Err(RoomManagerError::ParamError(e)),
        };
        let mut url = String::from_str(main_endpoint);
        url.append(path);
        url.append("?");
        url.append(query.as_str());
        proof {
            reveal_strlit("?");
        }
        assert(url@ == spec_connect_url(main_endpoint@, name_view, code_view));
        let connection = connect(url.as_str(), RECONNECT_LIMIT);
        self.state = RoomState::Connecting(connection);
        Ok(url)
    }
}

/// `new` holds the room information of `old` with its member list and
/// playback status replaced; without room information nothing changes.
pub open spec fn members_replaced(old: Option<RoomInfo>, new: Option<RoomInfo>, users: Vec<UserMeta>, status: PlayerStatus) -> bool {
    match old {
        Some(info) => new == Some(RoomInfo { id: info.id, user_id: info.user_id, users, player_status: status }),
        None => new is None,
    }
}

/// The playback status that `m` puts the room in, given the current one.
pub open spec fn status_after(m: ClientMessage, current: PlayerStatus) -> PlayerStatus {
    match m {
        ClientMessage::Play(t) => PlayerStatus::Playing(t),
        ClientMessage::Pause(t) => PlayerStatus::Paused(t),
        ClientMessage::Seek(t) | ClientMessage::Update(t) => current.spec_with_time(t),
        _ => current,
    }
}

/// The instruction for the video player that `m` carries, if any.
pub open spec fn player_message_of(m: ClientMessage) -> Option<PlayerMessages> {
    match m {
        ClientMessage::Play(t) => Some(PlayerMessages::Play(t)),
        ClientMessage::Pause(t) => Some(PlayerMessages::Pause(t)),
        ClientMessage::Seek(t) => Some(PlayerMessages::Seek(t)),
        ClientMessage::Update(t) => Some(PlayerMessages::Update(t)),
        _ => None,
    }
}

/// What the session does when `msg` arrives: the session before (`old`)
/// and after (`new`), and what the rest of the client is asked to do (`r`).
pub open spec fn client_outcome<C>(old: RoomManager<C>, new: RoomManager<C>, msg: Message, r: ClientEvent) -> bool {
    &&& new.vc_permission@ == old.vc_permission@
    &&& match msg {
        Message::ServerMessage(sm) => match sm {
            ServerMessage::RoomCreated(info) | ServerMessage::RoomJoined(info) => {
                if old.state is Connecting {
                    &&& new.player_message == old.player_message
                    &&& new.state matches RoomState::Connected(c) && c.connection == old.state->Connecting_0
                        && c.chat_history@.len() == 0 && c.rtc_config == info.rtc_config
                    &&& new.room_info == Some(RoomInfo {
                        id: info.room_id,
                        user_id: info.user_id,
                        users: info.users,
                        player_status: info.player_status,
                    })
                    &&& r matches ClientEvent::Navigate(p) && p@ == room_path(info.room_id@)
                } else {
                    new == old && r is Nothing
                }
            },
            ServerMessage::UserJoined(j) => {
                &&& new.state == old.state && new.player_message == old.player_message
                &&& members_replaced(old.room_info, new.room_info, j.users, j.player_status)
                &&& r is Nothing
            },
            ServerMessage::UserLeft(l) => {
                &&& new.state == old.state && new.player_message == old.player_message
                &&& members_replaced(old.room_info, new.room_info, l.users, l.player_status)
                &&& r is Nothing
            },
            ServerMessage::Error(text) => new == old && r == ClientEvent::Toast(ToastType::Failed, text),
        },
        Message::ClientMessage((from, m)) => match m {
            ClientMessage::SetVideoMeta(meta) => {
                &&& new.state == old.state && new.player_message == old.player_message && r is Nothing
                &&& !(old.room_info is Some && has_member(old.room_info->0.users@, from)) ==> new.room_info == old.room_info
                &&& old.room_info is Some && has_member(old.room_info->0.users@, from) ==> exists|i: int| #![trigger is_first_member(old.room_info->0.users@, from, i)] {
                    let info = old.room_info->0;
                    &&& is_first_member(info.users@, from, i)
                    &&& new.room_info matches Some(n)
                    &&& n.id == info.id && n.user_id == info.user_id && n.player_status == info.player_status
                    &&& n.users@ == info.users@.update(i, meta_with_state(info.users@[i], UserState::VideoSelected(meta)))
                }
            },
            ClientMessage::Play(_) | ClientMessage::Pause(_) | ClientMessage::Seek(_) | ClientMessage::Update(_) => {
                &&& new.state == old.state
                &&& new.room_info == (match old.room_info {
                    Some(info) => Some(info_with_status(info, status_after(m, info.player_status))),
                    None => None,
                })
                &&& new.player_message == player_message_of(m)
                &&& r == ClientEvent::Player(player_message_of(m)->0)
            },
            ClientMessage::Chat(text) => {
                &&& new.room_info == old.room_info && new.player_message == old.player_message
                &&& if old.state is Connected && old.room_info is Some && has_member(old.room_info->0.users@, from) {
                    exists|i: int| #![trigger is_first_member(old.room_info->0.users@, from, i)] {
                        let user = old.room_info->0.users@[i];
                        &&& is_first_member(old.room_info->0.users@, from, i)
                        &&& chat_added(old.state, new.state, user, text)
                        &&& r == ClientEvent::Chat(user, text)
                    }
                } else {
                    new.state == old.state && r is Nothing
                }
            },
            ClientMessage::SendSessionDesc(_, _) => new == old && r is Nothing,
            ClientMessage::ExchangeCandidate(_, ice) => new == old && r == ClientEvent::IceCandidate(from, ice),
            ClientMessage::ReceivedSessionDesc(sdp) => new == old && r == ClientEvent::SessionDesc(from, sdp),
            ClientMessage::RequestCall(_, video, audio) => new == old && r == ClientEvent::CallRequest(from, video, audio),
            ClientMessage::RequestVideoShare(_) => new == old && r == ClientEvent::ShareRequest(from),
        },
    }
}

impl<C> RoomManager<C> {
    /// Reacts to a message that arrived over the connection.
    pub fn on_message(&mut self, msg: Message) -> (r: ClientEvent)
        ensures
            client_outcome(*old(self), *final(self), msg, r),
    {
        match msg {
            Message::ServerMessage(sm) => match sm {
                ServerMessage::RoomCreated(info) => self.on_room_entered(info),
                ServerMessage::RoomJoined(info) => self.on_room_entered(info),
                ServerMessage::UserJoined(j) => {
                    self.replace_members(j.users, j.player_status);
                    ClientEvent::Nothing
                },
                ServerMessage::UserLeft(l) => {
                    self.replace_members(l.users, l.player_status);
                    ClientEvent::Nothing
                },
                ServerMessage::Error(text) => ClientEvent::Toast(ToastType::Failed, text),
            },
            Message::ClientMessage((from, m)) => match m {
                ClientMessage::SetVideoMeta(meta) => {
                    self.member_selected(from, meta);
                    ClientEvent::Nothing
                },
                ClientMessage::Play(t) => {
                    self.set_player_status(PlayerStatus::Playing(t));
                    self.player_message = Some(PlayerMessages::Play(t));
                    ClientEvent::Player(PlayerMessages::Play(t))
                },
                ClientMessage::Pause(t) => {
                    self.set_player_status(PlayerStatus::Paused(t));
                    self.player_message = Some(PlayerMessages::Pause(t));
                    ClientEvent::Player(PlayerMessages::Pause(t))
                },
                ClientMessage::Seek(t) => {
                    self.move_player_time(t);
                    self.player_message = Some(PlayerMessages::Seek(t));
                    ClientEvent::Player(PlayerMessages::Seek(t))
                },
                ClientMessage::Update(t) => {
                    self.move_player_time(t);
                    self.player_message = Some(PlayerMessages::Update(t));
                    ClientEvent::Player(PlayerMessages::Update(t))
                },
                ClientMessage::Chat(text) => self.chat_received(from, text),
                ClientMessage::SendSessionDesc(_, _) => ClientEvent::Nothing,
                ClientMessage::ExchangeCandidate(_, ice) => ClientEvent::IceCandidate(from, ice),
                ClientMessage::ReceivedSessionDesc(sdp) => ClientEvent::SessionDesc(from, sdp),
                ClientMessage::RequestCall(_, video, audio) => ClientEvent::CallRequest(from, video, audio),
                ClientMessage::RequestVideoShare(_) => ClientEvent::ShareRequest(from),
            },
        }
    }

    fn on_room_entered(&mut self, info: RoomJoinInfo) -> (r: ClientEvent)
        ensures
            client_outcome(*old(self), *final(self), Message::ServerMessage(ServerMessage::RoomJoined(info)), r),
    {
        let mut st: RoomState<C> = RoomState::Disconnected;
        std::mem::swap(&mut st, &mut self.state);
        match st {
            RoomState::Connecting(connection) => {
                let ghost id = info.room_id@;
                let mut path = String::from_str("/room/");
                path.append(info.room_id.as_str());
                self.state = RoomState::Connected(RoomConnectionInfo {
                    connection,
                    chat_history: Vec::new(),
                    rtc_config: info.rtc_config,
                });
                self.room_info = Some(RoomInfo {
                    id: info.room_id,
                    user_id: info.user_id,
                    users: info.users,
                    player_status: info.player_status,
                });
                ClientEvent::Navigate(path)
            },
            other => {
                self.state = other;
                ClientEvent::Nothing
            },
        }
    }

    fn replace_members(&mut self, users: Vec<UserMeta>, status: PlayerStatus)
        ensures
            final(self).vc_permission@ == old(self).vc_permission@,
            final(self).state == old(self).state,
            final(self).player_message == old(self).player_message,
            members_replaced(old(self).room_info, final(self).room_info, users, status),
    {
        let mut slot: Option<RoomInfo> = None;
        std::mem::swap(&mut slot, &mut self.room_info);
        self.room_info = match slot {
            Some(info) => Some(RoomInfo { id: info.id, user_id: info.user_id, users, player_status: status }),
            None => None,
        };
    }

    fn move_player_time(&mut self, time: Seconds)
        ensures
            final(self).vc_permission@ == old(self).vc_permission@,
            final(self).state == old(self).state,
            final(self).player_message == old(self).player_message,
            final(self).room_info == (match old(self).room_info {
                Some(info) => Some(info_with_status(info, info.player_status.spec_with_time(time))),
                None => None,
            }),
    {
        let mut slot: Option<RoomInfo> = None;
        std::mem::swap(&mut slot, &mut self.room_info);
        self.room_info = match slot {
            Some(info) => Some(RoomInfo {
                id: info.id,
                user_id: info.user_id,
                users: info.users,
                player_status: info.player_status.with_time(time),
            }),
            None => None,
        };
    }

    fn member_selected(&mut self, from: u128, meta: VideoMeta)
        ensures
            client_outcome(*old(self), *final(self), Message::ClientMessage((from, ClientMessage::SetVideoMeta(meta))), ClientEvent::Nothing),
    {
        let mut slot: Option<RoomInfo> = None;
        std::mem::swap(&mut slot, &mut self.room_info);
        let mut info = match slot {
            None => return,
            Some(info) => info,
        };
        let ghost before = info;
        match first_member(&info.users, from) {
            None => {
                self.room_info = Some(info);
            },
            Some(i) => {
                let old_meta = info.users[i].copy();
                let ghost m = meta;
                info.users.set(i, UserMeta { id: old_meta.id, name: old_meta.name, state: UserState::VideoSelected(meta) });
                assert(is_first_member(before.users@, from, i as int));
                assert(info.users@ == before.users@.update(i as int, meta_with_state(before.users@[i as int], UserState::VideoSelected(m))));
                self.room_info = Some(info);
            },
        }
    }

    fn chat_received(&mut self, from: u128, text: String) -> (r: ClientEvent)
        ensures
            client_outcome(*old(self), *final(self), Message::ClientMessage((from, ClientMessage::Chat(text))), r),
    {
        if !self.state.is_connected() {
            return ClientEvent::Nothing;
        }
        let i = match &self.room_info {
            None => return ClientEvent::Nothing,
            Some(info) => match first_member(&info.users, from) {
                None => return ClientEvent::Nothing,
                Some(i) => i,
            },
        };
        let user = match &self.room_info {
            Some(info) => info.users[i].copy(),
            None => return ClientEvent::Nothing,
        };
        let shown = user.copy();
        let line = text.clone();
        let ghost before = self.state;
        let mut st: RoomState<C> = RoomState::Disconnected;
        std::mem::swap(&mut st, &mut self.state);
        let st = match st {
            RoomState::Connected(info) => {
                let mut history = info.chat_history;
                history.push((user, line));
                RoomState::Connected(RoomConnectionInfo { connection: info.connection, chat_history: history, rtc_config: info.rtc_config })
            },
            other => other,
        };
        self.state = st;
        assert(is_first_member(self.room_info->0.users@, from, i as int));
        assert(chat_added(before, self.state, self.room_info->0.users@[i as int], text));
        ClientEvent::Chat(shown, text)
    }
}

/// After `set_player_status(s)` in a room, `get_player_status` reads `s`.
pub proof fn lemma_status_read_after_write(room_info: Option<RoomInfo>, status: PlayerStatus)
    requires
        room_info is Some,
    ensures
        spec_with_status(room_info, status) matches Some(info) && info.player_status == status,
{
}

impl<C> RoomManager<C> {
    /// Whether a call request from `from` is put before the person: only
    /// when `from` is a member of the room and asks for video or audio; the
    /// prompt names the member.
    pub fn call_request_prompt(&self, from: u128, video: bool, audio: bool) -> (r: Option<(UserMeta, bool, bool)>)
        ensures
            !(self.room_info is Some && has_member(self.room_info->0.users@, from) && (video || audio)) ==> r is None,
            self.room_info is Some && has_member(self.room_info->0.users@, from) && (video || audio) ==> exists|i: int| #![trigger is_first_member(self.room_info->0.users@, from, i)] {
                &&& is_first_member(self.room_info->0.users@, from, i)
                &&& r == Some((self.room_info->0.users@[i], video, audio))
            },
    {
        match &self.room_info {
            None => None,
            Some(info) => match first_member(&info.users, from) {
                None => None,
                Some(i) => if video || audio {
                    Some((info.users[i].copy(), video, audio))
                } else {
                    None
                },
            },
        }
    }
}

impl ToastType {
    /// Whether the notification goes away by itself after a while; failures
    /// stay until dismissed.
    pub fn auto_dismisses(&self) -> (r: bool)
        ensures
            r == !(*self == ToastType::Failed),
    {
        match self {
            ToastType::Failed => false,
            _ => true,
        }
    }
}

/// The text of the error a call operation fails with outside a room.
pub open spec fn spec_not_connected_text() -> Seq<char> {
    "Room not connected"@
}

/// The media of the client's calls: its own camera track and microphone
/// track, the last stream shown for a member's video and audio (by member
/// id; `None` clears it), and the connection to each peer.
#[derive(Debug)]
pub struct CallMedia<T, S, P> {
    pub self_video: Option<T>,
    pub self_audio: Option<T>,
    pub video_stream: Option<(u128, Option<S>)>,
    pub audio_stream: Option<(u128, Option<S>)>,
    pub peers: HashMap<u128, P>,
}

/// The local tracks a request for camera and microphone brought: a video
/// track, an audio track, either missing.
#[derive(Debug)]
pub struct MediaTracks<T> {
    pub video: Option<T>,
    pub audio: Option<T>,
}

/// What ending a call did: the local tracks taken out, audio first, which
/// are to be stopped, and the members whose streams were cleared, in order.
#[derive(Debug)]
pub struct ClosedCall<T> {
    pub stopped: Vec<T>,
    pub cleared: Vec<u128>,
}

/// The value held, as a sequence of none or one.
pub open spec fn option_seq<T>(o: Option<T>) -> Seq<T> {
    match o {
        Some(t) => seq![t],
        None => Seq::empty(),
    }
}

impl<T, S, P> CallMedia<T, S, P> {
    /// The connection by peer.
    pub open spec fn peers(&self) -> Map<u128, P> {
        self.peers@
    }

    /// No tracks, no streams, no connections.
    pub fn new() -> (r: Self)
        ensures
            r.self_video is None,
            r.self_audio is None,
            r.video_stream is None,
            r.audio_stream is None,
            r.peers() == Map::<u128, P>::empty(),
    {
        CallMedia { self_video: None, self_audio: None, video_stream: None, audio_stream: None, peers: HashMap::new() }
    }

    /// Records the connection to `user`, in place of an earlier one.
    pub fn add_peer(&mut self, user: u128, pc: P)
        ensures
            final(self).peers() == old(self).peers().insert(user, pc),
            final(self).self_video == old(self).self_video,
            final(self).self_audio == old(self).self_audio,
            final(self).video_stream == old(self).video_stream,
            final(self).audio_stream == old(self).audio_stream,
    {
        self.peers.insert(user, pc);
    }

    /// Whether there is a connection to `user`.
    pub fn has_peer(&self, user: u128) -> (r: bool)
        ensures
            r == self.peers().contains_key(user),
    {
        self.peers.contains_key(&user)
    }
}

/// `copy` is a clone of what `held` holds, and holds nothing when it holds
/// nothing.
pub open spec fn clone_of<T: Clone>(held: Option<T>, copy: Option<T>) -> bool {
    match (held, copy) {
        (Some(a), Some(b)) => cloned(a, b),
        (None, None) => true,
        _ => false,
    }
}

/// A copy of the track held, if any.
fn clone_track<T: Clone>(held: &Option<T>) -> (r: Option<T>)
    ensures
        clone_of(*held, r),
{
    match held {
        Some(t) => Some(t.clone()),
        None => None,
    }
}

impl<T: Clone, S, P> CallMedia<T, S, P> {
    /// The local tracks for a call that wants video and audio as given.
    /// The wanted tracks not held yet (see `missing_tracks`) were requested
    /// from the camera and microphone, with the outcome `requested`, or
    /// nothing had to be requested (`None`). A failed request gives no
    /// track at all. Otherwise each track the request brought is kept as
    /// the client's own, and used together with the wanted tracks already
    /// held. Answers (video, audio).
    pub fn take_up_tracks<E>(&mut self, video: bool, audio: bool, requested: Option<Result<MediaTracks<T>, E>>) -> (r: (Option<T>, Option<T>))
        ensures
            final(self).video_stream == old(self).video_stream,
            final(self).audio_stream == old(self).audio_stream,
            final(self).peers() == old(self).peers(),
            match requested {
                Some(Err(_)) => {
                    &&& r.0 is None && r.1 is None
                    &&& final(self).self_video == old(self).self_video
                    &&& final(self).self_audio == old(self).self_audio
                },
                None => {
                    &&& clone_of(if video { old(self).self_video } else { None }, r.0)
                    &&& clone_of(if audio { old(self).self_audio } else { None }, r.1)
                    &&& final(self).self_video == old(self).self_video
                    &&& final(self).self_audio == old(self).self_audio
                },
                Some(Ok(t)) => {
                    &&& match t.video {
                        Some(v) => r.0 == Some(v) && clone_of(Some(v), final(self).self_video),
                        None => clone_of(if video { old(self).self_video } else { None }, r.0)
                            && final(self).self_video == old(self).self_video,
                    }
                    &&& match t.audio {
                        Some(a) => r.1 == Some(a) && clone_of(Some(a), final(self).self_audio),
                        None => clone_of(if audio { old(self).self_audio } else { None }, r.1)
                            && final(self).self_audio == old(self).self_audio,
                    }
                },
            },
    {
        let tracks = match requested {
            Some(Err(_)) => return (None, None),
            Some(Ok(t)) => Some(t),
            None => None,
        };
        let mut video_track: Option<T> = if video { clone_track(&self.self_video) } else { None };
        let mut audio_track: Option<T> = if audio { clone_track(&self.self_audio) } else { None };
        if let Some(t) = tracks {
            if let Some(a) = t.audio {
                self.self_audio = Some(a.clone());
                audio_track = Some(a);
            }
            if let Some(v) = t.video {
                self.self_video = Some(v.clone());
                video_track = Some(v);
            }
        }
        (video_track, audio_track)
    }
}

impl<C> RoomManager<C> {
    /// Asks `user` for a call with video and audio as given, once the
    /// request for camera and microphone came back as `tracks`. When it
    /// failed, its error is returned and nothing changes. Otherwise the
    /// tracks obtained become the client's own, `user` is allowed video and
    /// audio as asked, and the call request to send is returned.
    pub fn send_vc_request<T, S, P, E>(
        &mut self,
        media: &mut CallMedia<T, S, P>,
        user: u128,
        video: bool,
        audio: bool,
        tracks: Result<MediaTracks<T>, E>,
    ) -> (r: Result<Option<Message>, E>)
        ensures
            final(self).state == old(self).state,
            final(self).room_info == old(self).room_info,
            final(self).player_message == old(self).player_message,
            final(media).video_stream == old(media).video_stream,
            final(media).audio_stream == old(media).audio_stream,
            final(media).peers() == old(media).peers(),
            match tracks {
                Err(e) => {
                    &&& r == Err::<Option<Message>, E>(e)
                    &&& final(self).vc_permission@ == old(self).vc_permission@
                    &&& final(media).self_video == old(media).self_video
                    &&& final(media).self_audio == old(media).self_audio
                },
                Ok(t) => {
                    &&& r == Ok::<Option<Message>, E>(spec_outgoing(*old(self), ClientMessage::RequestCall(user, video, audio), SendType::Reliable, None))
                    &&& final(self).vc_permission@ == old(self).vc_permission@.insert(user, (video, audio))
                    &&& final(media).self_video == (if t.video is Some { t.video } else { old(media).self_video })
                    &&& final(media).self_audio == (if t.audio is Some { t.audio } else { old(media).self_audio })
                },
            },
    {
        let tracks = match tracks {
            Ok(t) => t,
            Err(e) => return Err(e),
        };
        if let Some(a) = tracks.audio {
            media.self_audio = Some(a);
        }
        if let Some(v) = tracks.video {
            media.self_video = Some(v);
        }
        let out = self.send_message(ClientMessage::RequestCall(user, video, audio), SendType::Reliable, None);
        self.vc_permission.grant(user, video, audio);
        Ok(out)
    }

    /// Gets ready to connect to `user` for a call, or for sharing a video:
    /// needs a room and its relay servers, and answers with the client's own
    /// id and those servers. Unless the call shares a video, `user` is
    /// allowed video and audio as asked.
    pub fn connect_audio_chat(&mut self, user: u128, video_share: bool, video: bool, audio: bool) -> (r: Result<(u128, RtcConfig), String>)
        ensures
            final(self).state == old(self).state,
            final(self).room_info == old(self).room_info,
            final(self).player_message == old(self).player_message,
            !(old(self).room_info is Some && old(self).state is Connected) ==> {
                &&& r matches Err(e) && e@ == spec_not_connected_text()
                &&& final(self).vc_permission@ == old(self).vc_permission@
            },
            old(self).room_info is Some && old(self).state is Connected ==> {
                &&& r matches Ok(ok) && ok.0 == old(self).room_info->0.user_id
                    && ok.1 == old(self).state->Connected_0.rtc_config
                &&& final(self).vc_permission@ == (if video_share {
                    old(self).vc_permission@
                } else {
                    old(self).vc_permission@.insert(user, (video, audio))
                })
            },
    {
        let rtc = match &self.state {
            RoomState::Connected(info) => Some(info.rtc_config.copy()),
            _ => None,
        };
        let self_id = match &self.room_info {
            Some(info) => info.user_id,
            None => return Err(String::from_str("Room not connected")),
        };
        let rtc = match rtc {
            Some(rtc) => rtc,
            None => return Err(String::from_str("Room not connected")),
        };
        if !video_share {
            self.vc_permission.grant(user, video, audio);
        }
        Ok((self_id, rtc))
    }

    /// Gets ready to share the playing video with `user`: a connection
    /// without camera or microphone.
    pub fn add_video_share(&mut self, user: u128) -> (r: Result<(u128, RtcConfig), String>)
        ensures
            final(self).state == old(self).state,
            final(self).room_info == old(self).room_info,
            final(self).player_message == old(self).player_message,
            final(self).vc_permission@ == old(self).vc_permission@,
            !(old(self).room_info is Some && old(self).state is Connected) ==> (r matches Err(e) && e@ == spec_not_connected_text()),
            old(self).room_info is Some && old(self).state is Connected ==> (r matches Ok(ok) && ok.0 == old(self).room_info->0.user_id
                && ok.1 == old(self).state->Connected_0.rtc_config),
    {
        self.connect_audio_chat(user, true, false, false)
    }

    /// Ends the call with `user`: needs a room. The client's own tracks are
    /// taken out to be stopped, the streams shown for `user` and then for
    /// the client itself are cleared (so the client's own clearing is the
    /// one left in place), and the connection to `user` is forgotten.
    /// Without a room nothing changes.
    pub fn close_vc<T, S, P>(&self, media: &mut CallMedia<T, S, P>, user: u128) -> (r: Result<ClosedCall<T>, String>)
        ensures
            match self.room_info {
                None => {
                    &&& r matches Err(e) && e@ == spec_not_connected_text()
                    &&& *final(media) == *old(media)
                },
                Some(info) => {
                    &&& r matches Ok(c) && c.stopped@ == option_seq(old(media).self_audio) + option_seq(old(media).self_video)
                        && c.cleared@ == seq![user, info.user_id]
                    &&& final(media).self_audio is None
                    &&& final(media).self_video is None
                    &&& final(media).audio_stream == Some::<(u128, Option<S>)>((info.user_id, None))
                    &&& final(media).video_stream == Some::<(u128, Option<S>)>((info.user_id, None))
                    &&& final(media).peers() == old(media).peers().remove(user)
                },
            },
    {
        let self_id = match &self.room_info {
            Some(info) => info.user_id,
            None => return Err(String::from_str("Room not connected")),
        };
        let mut stopped: Vec<T> = Vec::new();
        let mut audio: Option<T> = None;
        std::mem::swap(&mut audio, &mut media.self_audio);
        if let Some(a) = audio {
            stopped.push(a);
        }
        let mut video: Option<T> = None;
        std::mem::swap(&mut video, &mut media.self_video);
        if let Some(v) = video {
            stopped.push(v);
        }
        let cleared: Vec<u128> = vec![user, self_id];
        media.audio_stream = Some((self_id, None));
        media.video_stream = Some((self_id, None));
        media.peers.remove(&user);
        assert(stopped@ =~= option_seq(old(media).self_audio) + option_seq(old(media).self_video));
        Ok(ClosedCall { stopped, cleared })
    }

    /// What `user` has been allowed in a call.
    pub fn permission_for(&self, user: u128) -> (r: (bool, bool))
        ensures
            r == (if self.vc_permission@.contains_key(user) { self.vc_permission@[user] } else { (false, false) }),
    {
        self.vc_permission.get(user)
    }
}

/// When the room answers a connecting session, the session is in that room:
/// connected on the same connection, knowing the room's code, members and
/// status, and showing the room's page.
pub proof fn lemma_answer_enters_room<C>(before: RoomManager<C>, after: RoomManager<C>, info: RoomJoinInfo, event: ClientEvent)
    requires
        before.state is Connecting,
        client_outcome(before, after, Message::ServerMessage(ServerMessage::RoomCreated(info)), event),
    ensures
        after.state matches RoomState::Connected(c) && c.connection == before.state->Connecting_0,
        after.room_info matches Some(r) && r.id == info.room_id && r.user_id == info.user_id
            && r.users == info.users && r.player_status == info.player_status,
        event matches ClientEvent::Navigate(p) && p@ == room_path(info.room_id@),
{
}

/// The status `status` takes at position `t` when only its position moves:
/// playing stays playing, paused stays paused.
pub open spec fn moved_to(status: PlayerStatus, t: Seconds) -> PlayerStatus {
    if status is Playing {
        PlayerStatus::Playing(t)
    } else {
        PlayerStatus::Paused(t)
    }
}

/// What a relayed playback message does on a client. The player is handed
/// the same instruction with the same time: `Play(t)` gives `Play(t)`,
/// `Pause(t)` gives `Pause(t)`, `Seek(t)` gives `Seek(t)`, `Update(t)` gives
/// `Update(t)`. The room's status becomes playing at `t` on `Play(t)`,
/// paused at `t` on `Pause(t)`, and on `Seek(t)` and `Update(t)` keeps
/// playing or paused as it was with its position moved to `t`. The
/// connection, the room's code, the client's own id and the member list
/// stay as they were, and a client outside a room stays outside.
pub proof fn lemma_client_follows_playback<C>(old: RoomManager<C>, new: RoomManager<C>, from: u128, m: ClientMessage, r: ClientEvent)
    requires
        client_outcome(old, new, Message::ClientMessage((from, m)), r),
    ensures
        m matches ClientMessage::Play(t) ==> r == ClientEvent::Player(PlayerMessages::Play(t))
            && new.player_message == Some(PlayerMessages::Play(t)),
        m matches ClientMessage::Pause(t) ==> r == ClientEvent::Player(PlayerMessages::Pause(t))
            && new.player_message == Some(PlayerMessages::Pause(t)),
        m matches ClientMessage::Seek(t) ==> r == ClientEvent::Player(PlayerMessages::Seek(t))
            && new.player_message == Some(PlayerMessages::Seek(t)),
        m matches ClientMessage::Update(t) ==> r == ClientEvent::Player(PlayerMessages::Update(t))
            && new.player_message == Some(PlayerMessages::Update(t)),
        m matches ClientMessage::Play(t) ==> (old.room_info is Some ==> (new.room_info matches Some(n)
            && n.player_status == PlayerStatus::Playing(t))),
        m matches ClientMessage::Pause(t) ==> (old.room_info is Some ==> (new.room_info matches Some(n)
            && n.player_status == PlayerStatus::Paused(t))),
        m matches ClientMessage::Seek(t) ==> (old.room_info is Some ==> (new.room_info matches Some(n)
            && n.player_status == moved_to(old.room_info->0.player_status, t))),
        m matches ClientMessage::Update(t) ==> (old.room_info is Some ==> (new.room_info matches Some(n)
            && n.player_status == moved_to(old.room_info->0.player_status, t))),
        (m is Play || m is Pause || m is Seek || m is Update) ==> {
            &&& new.state == old.state
            &&& new.vc_permission@ == old.vc_permission@
            &&& old.room_info is None ==> new.room_info is None
            &&& old.room_info is Some ==> (new.room_info matches Some(n) && n.id == old.room_info->0.id
                && n.user_id == old.room_info->0.user_id && n.users == old.room_info->0.users)
        },
{
}

/// What call signalling and server errors do on a client: the session
/// stays as it was. A candidate or a received description is handed on,
/// marked as coming from the member that sent it; a call request is shown
/// with the video and audio asked for and its sender; a share request
/// names its sender; a description addressed to someone else is ignored;
/// a server error is shown as a failure with its text.
pub proof fn lemma_client_signalling<C>(old: RoomManager<C>, new: RoomManager<C>, msg: Message, r: ClientEvent)
    requires
        client_outcome(old, new, msg, r),
    ensures
        msg matches Message::ClientMessage((from, ClientMessage::ExchangeCandidate(_, ice)))
            ==> new == old && r == ClientEvent::IceCandidate(from, ice),
        msg matches Message::ClientMessage((from, ClientMessage::ReceivedSessionDesc(desc)))
            ==> new == old && r == ClientEvent::SessionDesc(from, desc),
        msg matches Message::ClientMessage((from, ClientMessage::RequestCall(_, video, audio)))
            ==> new == old && r == ClientEvent::CallRequest(from, video, audio),
        msg matches Message::ClientMessage((from, ClientMessage::RequestVideoShare(_)))
            ==> new == old && r == ClientEvent::ShareRequest(from),
        msg matches Message::ClientMessage((_, ClientMessage::SendSessionDesc(_, _)))
            ==> new == old && r is Nothing,
        msg matches Message::ServerMessage(ServerMessage::Error(text))
            ==> new == old && r == ClientEvent::Toast(ToastType::Failed, text),
{
}

} // verus!
