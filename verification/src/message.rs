//! The messages exchanged over a room's websocket.

use vstd::prelude::*;
use crate::model::{PlayerStatus, Seconds, UserMeta, VideoMeta};

verus! {

/// Everything that travels over a room connection: either something the
/// server says, or something a client said, tagged with the id the client
/// claims as its own.
#[derive(Debug)]
pub enum Message {
    ServerMessage(ServerMessage),
    ClientMessage((u128, ClientMessage)),
}

/// What a client sends to the other members of its room.
#[derive(Debug)]
pub enum ClientMessage {
    SetVideoMeta(VideoMeta),
    Play(Seconds),
    Pause(Seconds),
    Seek(Seconds),
    Update(Seconds),
    Chat(String),
    SendSessionDesc(u128, RTCSessionDesc),
    ReceivedSessionDesc(RTCSessionDesc),
    ExchangeCandidate(u128, String),
    RequestCall(u128, bool, bool),
    RequestVideoShare(u128),
}

/// What the server tells a client.
#[derive(Debug)]
pub enum ServerMessage {
    RoomCreated(RoomJoinInfo),
    RoomJoined(RoomJoinInfo),
    UserJoined(UserJoined),
    UserLeft(UserLeft),
    Error(String),
}

/// Sent to the members of a room when somebody joins it.
#[derive(Debug)]
pub struct UserJoined {
    pub new_user: u128,
    pub users: Vec<UserMeta>,
    pub player_status: PlayerStatus,
}

/// Sent to the members of a room when somebody leaves it.
#[derive(Debug)]
pub struct UserLeft {
    pub user_left: u128,
    pub users: Vec<UserMeta>,
    pub player_status: PlayerStatus,
}

/// What a client learns when it has created or joined a room.
#[derive(Debug)]
pub struct RoomJoinInfo {
    pub room_id: String,
    pub user_id: u128,
    pub users: Vec<UserMeta>,
    pub player_status: PlayerStatus,
    pub rtc_config: RtcConfig,
}

/// The STUN and TURN servers that peers use to reach each other.
#[derive(Debug)]
pub struct RtcConfig {
    pub stun: String,
    pub turn: String,
    pub turn_user: String,
    pub turn_creds: String,
}

impl RtcConfig {
    /// An identical copy.
    pub fn copy(&self) -> (r: RtcConfig)
        ensures
            r == *self,
    {
        RtcConfig {
            stun: self.stun.clone(),
            turn: self.turn.clone(),
            turn_user: self.turn_user.clone(),
            turn_creds: self.turn_creds.clone(),
        }
    }
}

/// Why a peer connection is being offered.
#[derive(Debug)]
pub enum OfferReason {
    VideoCall,
    VideoShare(Vec<String>),
}

/// A WebRTC session description together with the reason for the offer.
#[derive(Debug)]
pub struct RTCSessionDesc {
    pub typ: String,
    pub sdp: String,
    pub reason: OfferReason,
}

} // verus!
