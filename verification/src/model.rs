//! Values shared by the server and the clients: the playback status of a
//! room and what each member has selected to watch.

use vstd::prelude::*;

verus! {

/// A playback position in seconds, carried as the bit pattern of an IEEE-754
/// double. The room logic stores and forwards positions but never computes
/// with them.
pub type Seconds = u64;

/// Whether a room's video is playing or paused, and at which position.
#[derive(Debug, Clone, Copy, PartialEq, Eq, Structural)]
pub enum PlayerStatus {
    Playing(Seconds),
    Paused(Seconds),
}

impl PlayerStatus {
    pub open spec fn spec_time(self) -> Seconds {
        match self {
            PlayerStatus::Playing(t) => t,
            PlayerStatus::Paused(t) => t,
        }
    }

    /// The same status with its position replaced by `time`.
    pub open spec fn spec_with_time(self, time: Seconds) -> PlayerStatus {
        match self {
            PlayerStatus::Playing(_) => PlayerStatus::Playing(time),
            PlayerStatus::Paused(_) => PlayerStatus::Paused(time),
        }
    }

    /// Returns `true` if the status is [`PlayerStatus::Paused`].
    pub fn is_paused(&self) -> (r: bool)
        ensures
            r == (*self is Paused),
    {
        match self {
            PlayerStatus::Playing(_) => false,
            PlayerStatus::Paused(_) => true,
        }
    }

    /// The playback position of the status.
    pub fn time(&self) -> (r: Seconds)
        ensures
            r == self.spec_time(),
    {
        match self {
            PlayerStatus::Playing(t) => *t,
            PlayerStatus::Paused(t) => *t,
        }
    }

    /// Moves the position to `time`, keeping playing or paused as it was.
    pub fn with_time(self, time: Seconds) -> (r: PlayerStatus)
        ensures
            r == self.spec_with_time(time),
    {
        match self {
            PlayerStatus::Playing(_) => PlayerStatus::Playing(time),
            PlayerStatus::Paused(_) => PlayerStatus::Paused(time),
        }
    }
}

/// The video a member has chosen: its file name and, once known, its length
/// (seconds, as the bit pattern of a double).
#[derive(Debug)]
pub struct VideoMeta {
    pub name: String,
    pub duration: Option<Seconds>,
}

impl VideoMeta {
    /// An identical copy.
    pub fn copy(&self) -> (r: VideoMeta)
        ensures
            r == *self,
    {
        VideoMeta { name: self.name.clone(), duration: self.duration }
    }
}

/// Whether a member has selected a video yet.
#[derive(Debug)]
pub enum UserState {
    VideoNotSelected,
    VideoSelected(VideoMeta),
}

impl UserState {
    /// An identical copy.
    pub fn copy(&self) -> (r: UserState)
        ensures
            r == *self,
    {
        match self {
            UserState::VideoNotSelected => UserState::VideoNotSelected,
            UserState::VideoSelected(m) => UserState::VideoSelected(m.copy()),
        }
    }

    /// The selected video, if there is one.
    pub fn as_video_selected(&self) -> (r: Option<&VideoMeta>)
        ensures
            match *self {
                UserState::VideoNotSelected => r is None,
                UserState::VideoSelected(m) => r == Some(&m),
            },
    {
        match self {
            UserState::VideoNotSelected => None,
            UserState::VideoSelected(m) => Some(m),
        }
    }
}

/// What every member of a room knows about another member.
#[derive(Debug)]
pub struct UserMeta {
    pub id: u128,
    pub name: String,
    pub state: UserState,
}

impl UserMeta {
    /// An identical copy.
    pub fn copy(&self) -> (r: UserMeta)
        ensures
            r == *self,
    {
        UserMeta { id: self.id, name: self.name.clone(), state: self.state.copy() }
    }
}

/// Copies a list of members, element by element.
pub fn copy_metas(v: &Vec<UserMeta>) -> (r: Vec<UserMeta>)
    ensures
        r@ == v@,
{
    let mut r: Vec<UserMeta> = Vec::new();
    let mut i: usize = 0;
    while i < v.len()
        invariant
            i <= v.len(),
            r@ == v@.subrange(0, i as int),
        decreases v.len() - i,
    {
        r.push(v[i].copy());
        i = i + 1;
    }
    r
}

/// Moving the playback position never starts or stops playback, and the
/// position becomes the one asked for.
pub proof fn lemma_with_time_keeps_playing(status: PlayerStatus, time: Seconds)
    ensures
        (status.spec_with_time(time) is Paused) == (status is Paused),
        status.spec_with_time(time).spec_time() == time,
{
}

} // verus!
