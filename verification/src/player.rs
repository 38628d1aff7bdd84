//! Keeping the local video element and the room's playback status in step.

use vstd::prelude::*;
use crate::client::{PlayerMessages, RoomManager, SendType, spec_outgoing, spec_with_status};
use crate::message::{ClientMessage, Message};
use crate::model::{PlayerStatus, Seconds};

verus! {

/// What the local video element reports it is doing.
#[derive(Debug, Clone, Copy, PartialEq, Eq, Structural)]
pub enum VideoState {
    Playing,
    Paused,
    Waiting,
    Ended,
    Errored,
    Stalled,
    Suspend,
    Seeking,
}

impl VideoState {
    /// The state's name, as shown to the person watching.
    pub fn name(&self) -> (r: String)
        ensures
            r@ == (match *self {
                VideoState::Playing => "Playing"@,
                VideoState::Paused => "Paused"@,
                VideoState::Waiting => "Waiting"@,
                VideoState::Ended => "Ended"@,
                VideoState::Errored => "Errored"@,
                VideoState::Stalled => "Stalled"@,
                VideoState::Suspend => "Suspend"@,
                VideoState::Seeking => "Seeking"@,
            }),
    {
        match self {
            VideoState::Playing => String::from_str("Playing"),
            VideoState::Paused => String::from_str("Paused"),
            VideoState::Waiting => String::from_str("Waiting"),
            VideoState::Ended => String::from_str("Ended"),
            VideoState::Errored => String::from_str("Errored"),
            VideoState::Stalled => String::from_str("Stalled"),
            VideoState::Suspend => String::from_str("Suspend"),
            VideoState::Seeking => String::from_str("Seeking"),
        }
    }
}

/// The playback status the local element stands for: playing only while it
/// plays, paused in every other state.
pub open spec fn spec_status_for(state: VideoState, time: Seconds) -> PlayerStatus {
    if state == VideoState::Playing {
        PlayerStatus::Playing(time)
    } else {
        PlayerStatus::Paused(time)
    }
}

/// The playback status the local element stands for at position `time`.
pub fn player_status_for(state: VideoState, time: Seconds) -> (r: PlayerStatus)
    ensures
        r == spec_status_for(state, time),
{
    match state {
        VideoState::Playing => PlayerStatus::Playing(time),
        _ => PlayerStatus::Paused(time),
    }
}

/// What the local element is told to do.
#[derive(Debug, Clone, Copy, PartialEq, Eq, Structural)]
pub enum PlayerCommand {
    Nothing,
    Play,
    Pause,
    SeekTo(Seconds),
}

/// How the local element follows an instruction from the room: start when
/// told to play while not playing, stop when told to pause while playing,
/// jump when told to seek; nothing while the element is seeking itself.
pub open spec fn spec_command_for(state: VideoState, msg: PlayerMessages) -> PlayerCommand {
    if state == VideoState::Seeking {
        PlayerCommand::Nothing
    } else {
        match msg {
            PlayerMessages::Play(_) => if state != VideoState::Playing { PlayerCommand::Play } else { PlayerCommand::Nothing },
            PlayerMessages::Pause(_) => if state == VideoState::Playing { PlayerCommand::Pause } else { PlayerCommand::Nothing },
            PlayerMessages::Update(_) => PlayerCommand::Nothing,
            PlayerMessages::Seek(t) => PlayerCommand::SeekTo(t),
        }
    }
}

/// How the local element in state `state` follows the instruction `msg`.
pub fn command_for(state: VideoState, msg: PlayerMessages) -> (r: PlayerCommand)
    ensures
        r == spec_command_for(state, msg),
{
    if state == VideoState::Seeking {
        return PlayerCommand::Nothing;
    }
    let local = player_status_for(state, 0);
    match msg {
        PlayerMessages::Play(_) => if local.is_paused() { PlayerCommand::Play } else { PlayerCommand::Nothing },
        PlayerMessages::Pause(_) => if !local.is_paused() { PlayerCommand::Pause } else { PlayerCommand::Nothing },
        PlayerMessages::Update(_) => PlayerCommand::Nothing,
        PlayerMessages::Seek(t) => PlayerCommand::SeekTo(t),
    }
}

/// What reporting the local element in state `state` at position `time`
/// does: the session before (`old`) and after (`new`), and the message to
/// send (`r`). When the element is not seeking and it plays while the room
/// is paused, or the other way round, the room's status becomes the local
/// one and a play or pause message goes out; otherwise nothing changes.
pub open spec fn sync_outcome<C>(old: RoomManager<C>, new: RoomManager<C>, state: VideoState, time: Seconds, r: Option<Message>) -> bool {
    &&& new.vc_permission@ == old.vc_permission@
    &&& new.state == old.state
    &&& new.player_message == old.player_message
    &&& ({
        let local = spec_status_for(state, time);
        if state != VideoState::Seeking && old.room_info is Some
            && (old.room_info->0.player_status is Paused) != (local is Paused) {
            &&& new.room_info == spec_with_status(old.room_info, local)
            &&& r == spec_outgoing(old, if local is Paused {
                ClientMessage::Pause(time)
            } else {
                ClientMessage::Play(time)
            }, SendType::Reliable, None)
        } else {
            new.room_info == old.room_info && r is None
        }
    })
}

/// The local element stands for a playing room only in state `Playing`; in
/// every other state (waiting, buffering, paused, ended, ...) it stands for
/// a paused one. Either way at the element's own position.
pub proof fn lemma_status_for_plays_only_when_playing(state: VideoState, time: Seconds)
    ensures
        (spec_status_for(state, time) is Playing) <==> state == VideoState::Playing,
        spec_status_for(state, time) == PlayerStatus::Playing(time) || spec_status_for(state, time) == PlayerStatus::Paused(time),
{
}

/// How the element follows the room. While it seeks by itself it ignores
/// every instruction. Otherwise a seek always jumps to the given position,
/// playing or paused; play starts it exactly when it is not playing; pause
/// stops it exactly when it plays; a position update never acts.
pub proof fn lemma_command_follows_room(state: VideoState, msg: PlayerMessages)
    ensures
        state == VideoState::Seeking ==> spec_command_for(state, msg) == PlayerCommand::Nothing,
        state != VideoState::Seeking ==> (msg matches PlayerMessages::Seek(t) ==> spec_command_for(state, msg) == PlayerCommand::SeekTo(t)),
        state != VideoState::Seeking && msg is Play ==>
            (spec_command_for(state, msg) == PlayerCommand::Play) == (state != VideoState::Playing),
        state != VideoState::Seeking && msg is Pause ==>
            (spec_command_for(state, msg) == PlayerCommand::Pause) == (state == VideoState::Playing),
        msg is Update ==> spec_command_for(state, msg) == PlayerCommand::Nothing,
        spec_command_for(state, msg) is SeekTo ==> msg is Seek,
        spec_command_for(state, msg) is Play ==> msg is Play,
        spec_command_for(state, msg) is Pause ==> msg is Pause,
{
}

/// Reporting the local element only ever reports a change. An element that
/// is not playing (loading, buffering, paused, ended, ...) in a paused
/// room, or a playing one in a playing room, or one that is seeking, sends
/// nothing and leaves the room's status alone. A play message goes out only
/// from a playing element and a pause message only from one that is
/// neither playing nor seeking, each at the element's position. In a
/// connected session a playing element in a paused room starts the room at
/// that position, and a stopped one in a playing room pauses it there.
/// Outside a room nothing is sent.
pub proof fn lemma_sync_reports_only_changes<C>(old: RoomManager<C>, new: RoomManager<C>, state: VideoState, time: Seconds, r: Option<Message>)
    requires
        sync_outcome(old, new, state, time, r),
    ensures
        state == VideoState::Seeking ==> r is None && new.room_info == old.room_info,
        (old.room_info matches Some(i) && i.player_status is Paused) && state != VideoState::Playing
            ==> r is None && new.room_info == old.room_info,
        (old.room_info matches Some(i) && i.player_status is Playing) && state == VideoState::Playing
            ==> r is None && new.room_info == old.room_info,
        r matches Some(Message::ClientMessage((_, ClientMessage::Play(t)))) ==> state == VideoState::Playing && t == time,
        r matches Some(Message::ClientMessage((_, ClientMessage::Pause(t)))) ==> state != VideoState::Playing
            && state != VideoState::Seeking && t == time,
        (old.room_info matches Some(i) && i.player_status is Paused) && state == VideoState::Playing && old.state is Connected ==> {
            &&& r == Some(Message::ClientMessage((old.room_info->0.user_id, ClientMessage::Play(time))))
            &&& new.room_info matches Some(n) && n.player_status == PlayerStatus::Playing(time)
        },
        (old.room_info matches Some(i) && i.player_status is Playing) && state != VideoState::Playing
            && state != VideoState::Seeking && old.state is Connected ==> {
            &&& r == Some(Message::ClientMessage((old.room_info->0.user_id, ClientMessage::Pause(time))))
            &&& new.room_info matches Some(n) && n.player_status == PlayerStatus::Paused(time)
        },
        old.room_info is None ==> r is None && new.room_info is None,
        new.state == old.state && new.player_message == old.player_message,
{
}

impl<C> RoomManager<C> {
    /// Reports a change of the local element to the room: when the element
    /// is not seeking and it plays while the room is paused, or the other
    /// way round, the room's status becomes the local one and a play or
    /// pause message is returned for sending.
    pub fn sync_local_state(&mut self, state: VideoState, time: Seconds) -> (r: Option<Message>)
        ensures
            sync_outcome(*old(self), *final(self), state, time, r),
    {
        if state == VideoState::Seeking {
            return None;
        }
        let local = player_status_for(state, time);
        let room_status = match self.get_player_status() {
            Some(s) => s,
            None => return None,
        };
        if room_status.is_paused() == local.is_paused() {
            return None;
        }
        self.set_player_status(local);
        match local {
            PlayerStatus::Paused(t) => self.send_message(ClientMessage::Pause(t), SendType::Reliable, None),
            PlayerStatus::Playing(t) => self.send_message(ClientMessage::Play(t), SendType::Reliable, None),
        }
    }
}

} // verus!
