//! The bookkeeping around peer-to-peer calls: who may call with what, which
//! candidates wait for a connection, and whether an offer is taken up.

use vstd::prelude::*;
use std::collections::HashMap;
use crate::message::{OfferReason, RTCSessionDesc};

verus! {

broadcast use vstd::std_specs::hash::group_hash_axioms;

/// What a peer connection reports about itself.
#[derive(Debug, Clone, Copy, PartialEq, Eq, Structural)]
pub enum PeerConnectionState {
    New,
    Connecting,
    Connected,
    Disconnected,
    Failed,
    Closed,
}

/// What to do after a peer connection changed state.
#[derive(Debug, Clone, Copy, PartialEq, Eq, Structural)]
pub enum PeerAction {
    Nothing,
    /// Record the connection as the one to this peer.
    Register,
    /// Forget the connection, stop both sides' streams, release the local
    /// camera and microphone, and close it.
    Teardown,
}

/// How a peer connection's state change is handled.
pub open spec fn spec_peer_action(state: PeerConnectionState) -> PeerAction {
    match state {
        PeerConnectionState::Closed | PeerConnectionState::Disconnected => PeerAction::Teardown,
        PeerConnectionState::Connected => PeerAction::Register,
        _ => PeerAction::Nothing,
    }
}

/// How a peer connection's state change is handled.
pub fn peer_action(state: PeerConnectionState) -> (r: PeerAction)
    ensures
        r == spec_peer_action(state),
{
    match state {
        PeerConnectionState::Closed | PeerConnectionState::Disconnected => PeerAction::Teardown,
        PeerConnectionState::Connected => PeerAction::Register,
        _ => PeerAction::Nothing,
    }
}

/// Which stream a track received from a peer is shown in.
#[derive(Debug, Clone, Copy, PartialEq, Eq, Structural)]
pub enum StreamKind {
    Audio,
    Video,
}

/// The stream for a received track of kind `kind`: audio tracks go to the
/// audio stream, every other track to the video stream.
pub fn stream_for_track(kind: &String) -> (r: StreamKind)
    ensures
        r == (if kind@ == "audio"@ { StreamKind::Audio } else { StreamKind::Video }),
{
    let audio = String::from_str("audio");
    if *kind == audio {
        StreamKind::Audio
    } else {
        StreamKind::Video
    }
}

/// Which of the wanted local tracks still have to be requested from the
/// camera and microphone: those wanted and not already held.
pub fn missing_tracks(video: bool, audio: bool, have_video: bool, have_audio: bool) -> (r: (bool, bool))
    ensures
        r == (video && !have_video, audio && !have_audio),
{
    (video && !have_video, audio && !have_audio)
}

/// Checks that every wanted local track was obtained. Both failures carry
/// the text `Cannot get video`.
pub fn check_tracks(video: bool, audio: bool, have_video: bool, have_audio: bool) -> (r: Result<(), String>)
    ensures
        (video && !have_video) || (audio && !have_audio) ==> (r matches Err(e) && e@ == "Cannot get video"@),
        !((video && !have_video) || (audio && !have_audio)) ==> r is Ok,
{
    if video && !have_video {
        return Err(String::from_str("Cannot get video"));
    }
    if audio && !have_audio {
        return Err(String::from_str("Cannot get video"));
    }
    Ok(())
}

/// Why an incoming session description is not taken up, or that it is.
#[derive(Debug, Clone, Copy, PartialEq, Eq, Structural)]
pub enum OfferDecision {
    /// The description's type is not a session description type.
    UnknownType,
    /// The description is not an offer.
    NotOffer,
    /// The client does not know its own id.
    NoSelfId,
    /// The client has no relay servers.
    NoRtcConfig,
    /// Neither video nor audio was permitted for this peer.
    NotPermitted,
    Accept,
}

/// The session description types a browser understands.
pub open spec fn is_sdp_type(t: Seq<char>) -> bool {
    t == "offer"@ || t == "pranswer"@ || t == "answer"@ || t == "rollback"@
}

/// Whether an incoming description of type `typ` is taken up, checked in
/// this order: a known type, an offer, an own id, relay servers, and some
/// permission.
pub open spec fn spec_offer_decision(typ: Seq<char>, knows_self: bool, has_rtc_config: bool, permission: (bool, bool)) -> OfferDecision {
    if !is_sdp_type(typ) {
        OfferDecision::UnknownType
    } else if typ != "offer"@ {
        OfferDecision::NotOffer
    } else if !knows_self {
        OfferDecision::NoSelfId
    } else if !has_rtc_config {
        OfferDecision::NoRtcConfig
    } else if !permission.0 && !permission.1 {
        OfferDecision::NotPermitted
    } else {
        OfferDecision::Accept
    }
}

/// Which incoming descriptions are taken up: exactly offers, when the
/// client knows its own id and has relay servers, and the peer was allowed
/// video or audio, either one being enough. Such a valid offer is refused
/// for want of permission exactly when neither was allowed. Otherwise the
/// first thing missing is the reason: a type that is no description type,
/// a description that is no offer, no own id, no relay servers.
pub proof fn lemma_offer_taken_up_with_any_permission(typ: Seq<char>, knows_self: bool, has_rtc_config: bool, permission: (bool, bool))
    ensures
        (spec_offer_decision(typ, knows_self, has_rtc_config, permission) == OfferDecision::Accept)
            <==> (typ == "offer"@ && knows_self && has_rtc_config && (permission.0 || permission.1)),
        (spec_offer_decision(typ, knows_self, has_rtc_config, permission) == OfferDecision::NotPermitted)
            <==> (typ == "offer"@ && knows_self && has_rtc_config && !permission.0 && !permission.1),
        typ == "offer"@ && knows_self && has_rtc_config ==>
            spec_offer_decision(typ, knows_self, has_rtc_config, permission) == OfferDecision::Accept
            || spec_offer_decision(typ, knows_self, has_rtc_config, permission) == OfferDecision::NotPermitted,
        typ != "offer"@ && typ != "pranswer"@ && typ != "answer"@ && typ != "rollback"@ ==>
            spec_offer_decision(typ, knows_self, has_rtc_config, permission) == OfferDecision::UnknownType,
        typ == "pranswer"@ || typ == "answer"@ || typ == "rollback"@ ==>
            spec_offer_decision(typ, knows_self, has_rtc_config, permission) == OfferDecision::NotOffer,
        typ == "offer"@ && !knows_self ==>
            spec_offer_decision(typ, knows_self, has_rtc_config, permission) == OfferDecision::NoSelfId,
        typ == "offer"@ && knows_self && !has_rtc_config ==>
            spec_offer_decision(typ, knows_self, has_rtc_config, permission) == OfferDecision::NoRtcConfig,
{
    reveal_strlit("offer");
    reveal_strlit("pranswer");
    reveal_strlit("answer");
    reveal_strlit("rollback");
    assert("pranswer"@.len() != "offer"@.len());
    assert("answer"@.len() != "offer"@.len());
    assert("rollback"@.len() != "offer"@.len());
}

fn str_equals(a: &str, b: &str) -> (r: bool)
    ensures
        r == (a@ == b@),
{
    let x = String::from_str(a);
    let y = String::from_str(b);
    x == y
}

/// Decides whether an incoming session description is taken up.
pub fn offer_decision(typ: &str, self_id: Option<u128>, has_rtc_config: bool, permission: (bool, bool)) -> (r: OfferDecision)
    ensures
        r == spec_offer_decision(typ@, self_id is Some, has_rtc_config, permission),
{
    let is_offer = str_equals(typ, "offer");
    if !(is_offer || str_equals(typ, "pranswer") || str_equals(typ, "answer") || str_equals(typ, "rollback")) {
        return OfferDecision::UnknownType;
    }
    if !is_offer {
        return OfferDecision::NotOffer;
    }
    if self_id.is_none() {
        return OfferDecision::NoSelfId;
    }
    if !has_rtc_config {
        return OfferDecision::NoRtcConfig;
    }
    if !permission.0 && !permission.1 {
        return OfferDecision::NotPermitted;
    }
    OfferDecision::Accept
}

/// What the client allowed each peer to use in a call: video and audio.
#[derive(Debug)]
pub struct CallPermissions {
    granted: HashMap<u128, (bool, bool)>,
}

impl View for CallPermissions {
    type V = Map<u128, (bool, bool)>;

    closed spec fn view(&self) -> Map<u128, (bool, bool)> {
        self.granted@
    }
}

impl CallPermissions {
    /// Nobody has been allowed anything.
    pub fn new() -> (r: CallPermissions)
        ensures
            r@ == Map::<u128, (bool, bool)>::empty(),
    {
        CallPermissions { granted: HashMap::new() }
    }

    /// Allows `user` to use video and audio as given, replacing what was
    /// allowed before.
    pub fn grant(&mut self, user: u128, video: bool, audio: bool)
        ensures
            final(self)@ == old(self)@.insert(user, (video, audio)),
    {
        self.granted.insert(user, (video, audio));
    }

    /// What `user` is allowed; nothing when it was never granted.
    pub fn get(&self, user: u128) -> (r: (bool, bool))
        ensures
            r == (if self@.contains_key(user) { self@[user] } else { (false, false) }),
    {
        match self.granted.get(&user) {
            Some(p) => *p,
            None => (false, false),
        }
    }
}

/// A grant is read back until it is replaced.
pub proof fn lemma_permission_read_after_grant(before: Map<u128, (bool, bool)>, user: u128, video: bool, audio: bool, other: u128)
    ensures
        before.insert(user, (video, audio))[user] == (video, audio),
        other != user ==> before.insert(user, (video, audio)).contains_key(other) == before.contains_key(other),
        other != user && before.contains_key(other) ==> before.insert(user, (video, audio))[other] == before[other],
{
}

/// An outgoing call to one peer: whether its offer went out, whether the
/// connection closed, and its candidates. Until the peer's answer is
/// applied they are held back; afterwards they are added at once. After the
/// connection closed everything is ignored.
#[derive(Debug)]
pub struct OutgoingPeer<C> {
    pub peer: u128,
    pub offered: bool,
    pub closed: bool,
    pub pending: Option<Vec<C>>,
}

/// What happens to an outgoing call.
#[derive(Debug)]
pub enum OutgoingEvent<C> {
    /// A candidate arrived from a member.
    Candidate(u128, C),
    /// A member's answer arrived; the peer's answer is applied to the
    /// connection.
    Answer(u128),
    /// The connection changed state.
    StateChanged(PeerConnectionState),
}

/// The held-back candidates as a sequence, if they are still held back.
pub open spec fn pending_view<C>(pending: Option<Vec<C>>) -> Option<Seq<C>> {
    match pending {
        Some(v) => Some(v@),
        None => None,
    }
}

/// One event on an outgoing call to `peer` that is `closed` or not and
/// holds back `pending`: whether it is closed afterwards, what it holds back
/// afterwards, and the candidates to add to the connection now.
pub open spec fn outgoing_step<C>(peer: u128, closed: bool, pending: Option<Seq<C>>, ev: OutgoingEvent<C>) -> (bool, Option<Seq<C>>, Seq<C>) {
    match ev {
        OutgoingEvent::Candidate(from, c) => if closed || from != peer {
            (closed, pending, Seq::empty())
        } else {
            match pending {
                Some(q) => (closed, Some(q.push(c)), Seq::empty()),
                None => (closed, None, seq![c]),
            }
        },
        OutgoingEvent::Answer(from) => if closed || from != peer {
            (closed, pending, Seq::empty())
        } else {
            (closed, None, match pending {
                Some(q) => q,
                None => Seq::empty(),
            })
        },
        OutgoingEvent::StateChanged(s) => (closed || spec_peer_action(s) == PeerAction::Teardown, pending, Seq::empty()),
    }
}

/// A run of events, one after the other: the state reached and all the
/// candidates added to the connection, in order.
pub open spec fn outgoing_run<C>(peer: u128, closed: bool, pending: Option<Seq<C>>, events: Seq<OutgoingEvent<C>>) -> (bool, Option<Seq<C>>, Seq<C>)
    decreases events.len(),
{
    if events.len() == 0 {
        (closed, pending, Seq::empty())
    } else {
        let before = outgoing_run(peer, closed, pending, events.drop_last());
        let after = outgoing_step(peer, before.0, before.1, events.last());
        (after.0, after.1, before.2 + after.2)
    }
}

/// The candidates of `peer` among `events`, in the order they came.
pub open spec fn candidates_from<C>(events: Seq<OutgoingEvent<C>>, peer: u128) -> Seq<C>
    decreases events.len(),
{
    if events.len() == 0 {
        Seq::empty()
    } else {
        candidates_from(events.drop_last(), peer) + match events.last() {
            OutgoingEvent::Candidate(from, c) => if from == peer { seq![c] } else { Seq::empty() },
            _ => Seq::empty(),
        }
    }
}

/// `ev` closes the connection.
pub open spec fn tears_down<C>(ev: OutgoingEvent<C>) -> bool {
    ev matches OutgoingEvent::StateChanged(s) && spec_peer_action(s) == PeerAction::Teardown
}

/// The answer of `peer` is among `events`.
pub open spec fn answered<C>(events: Seq<OutgoingEvent<C>>, peer: u128) -> bool {
    exists|i: int| 0 <= i < events.len() && events[i] == OutgoingEvent::<C>::Answer(peer)
}

/// On a new outgoing call that stays open, every candidate of the peer is
/// added to the connection exactly once and in the order it came, and no
/// candidate of anyone else: until the peer's answer arrives they are all
/// held back, after it all of them have been added and none is held back.
/// Answers of other members change nothing.
pub proof fn lemma_outgoing_candidates_in_order<C>(peer: u128, events: Seq<OutgoingEvent<C>>)
    requires
        forall|i: int| 0 <= i < events.len() ==> !tears_down(#[trigger] events[i]),
    ensures
        !outgoing_run(peer, false, Some(Seq::<C>::empty()), events).0,
        answered(events, peer) ==> outgoing_run(peer, false, Some(Seq::<C>::empty()), events).1 is None
            && outgoing_run(peer, false, Some(Seq::<C>::empty()), events).2 == candidates_from(events, peer),
        !answered(events, peer) ==> outgoing_run(peer, false, Some(Seq::<C>::empty()), events).1 == Some(candidates_from(events, peer))
            && outgoing_run(peer, false, Some(Seq::<C>::empty()), events).2 == Seq::<C>::empty(),
    decreases events.len(),
{
    if events.len() > 0 {
        let prev = events.drop_last();
        assert forall|i: int| 0 <= i < prev.len() implies !tears_down(#[trigger] prev[i]) by {
            assert(prev[i] == events[i]);
        }
        lemma_outgoing_candidates_in_order(peer, prev);
        let last = events.last();
        assert(!tears_down(events[events.len() - 1]));
        if answered(prev, peer) {
            let i = choose|i: int| 0 <= i < prev.len() && prev[i] == OutgoingEvent::<C>::Answer(peer);
            assert(events[i] == prev[i]);
        }
        if last == OutgoingEvent::<C>::Answer(peer) {
            assert(events[events.len() - 1] == OutgoingEvent::<C>::Answer(peer));
        } else if answered(events, peer) {
            let i = choose|i: int| 0 <= i < events.len() && events[i] == OutgoingEvent::<C>::Answer(peer);
            assert(prev[i] == events[i]);
        }
        let before = outgoing_run(peer, false, Some(Seq::<C>::empty()), prev);
        match last {
            OutgoingEvent::Candidate(from, c) => {
                assert(before.2 + Seq::<C>::empty() =~= before.2);
                if let Some(q) = before.1 {
                    assert(q.push(c) =~= candidates_from(prev, peer) + seq![c]);
                }
                assert(candidates_from(prev, peer) + Seq::<C>::empty() =~= candidates_from(prev, peer));
            },
            OutgoingEvent::Answer(_) => {
                assert(candidates_from(prev, peer) + Seq::<C>::empty() =~= candidates_from(prev, peer));
                assert(before.2 + Seq::<C>::empty() =~= before.2);
                assert(Seq::<C>::empty() + candidates_from(prev, peer) =~= candidates_from(prev, peer));
            },
            OutgoingEvent::StateChanged(_) => {
                assert(candidates_from(prev, peer) + Seq::<C>::empty() =~= candidates_from(prev, peer));
                assert(before.2 + Seq::<C>::empty() =~= before.2);
            },
        }
    }
}

/// Running `a` and then `b` is running `a`, and then `b` from where `a`
/// left the call; the candidates added are those of `a` followed by those
/// of `b`.
pub proof fn lemma_outgoing_run_split<C>(peer: u128, closed: bool, pending: Option<Seq<C>>, a: Seq<OutgoingEvent<C>>, b: Seq<OutgoingEvent<C>>)
    ensures
        ({
            let first = outgoing_run(peer, closed, pending, a);
            let second = outgoing_run(peer, first.0, first.1, b);
            outgoing_run(peer, closed, pending, a + b) == (second.0, second.1, first.2 + second.2)
        }),
    decreases b.len(),
{
    let first = outgoing_run(peer, closed, pending, a);
    if b.len() == 0 {
        assert(a + b =~= a);
        assert(first.2 + Seq::<C>::empty() =~= first.2);
    } else {
        lemma_outgoing_run_split(peer, closed, pending, a, b.drop_last());
        assert((a + b).drop_last() =~= a + b.drop_last());
        assert((a + b).last() == b.last());
        let mid = outgoing_run(peer, first.0, first.1, b.drop_last());
        let step = outgoing_step(peer, mid.0, mid.1, b.last());
        assert(first.2 + mid.2 + step.2 =~= first.2 + (mid.2 + step.2));
    }
}

/// On a new outgoing call whose connection closes at event `k` (the first
/// close), the candidates added over the whole run are exactly those the
/// run up to the close added: every candidate of the peer that came before
/// the close, in the order it came, when the peer's answer came before the
/// close, and none otherwise. Nothing after the close is added, and the
/// call stays closed.
pub proof fn lemma_outgoing_candidates_until_close<C>(peer: u128, events: Seq<OutgoingEvent<C>>, k: int)
    requires
        0 <= k < events.len(),
        tears_down(events[k]),
        forall|i: int| 0 <= i < k ==> !tears_down(#[trigger] events[i]),
    ensures
        outgoing_run(peer, false, Some(Seq::<C>::empty()), events).0,
        answered(events.take(k), peer) ==> outgoing_run(peer, false, Some(Seq::<C>::empty()), events).2
            == candidates_from(events.take(k), peer),
        !answered(events.take(k), peer) ==> outgoing_run(peer, false, Some(Seq::<C>::empty()), events).2
            == Seq::<C>::empty(),
{
    let before = events.take(k);
    let upto = events.take(k + 1);
    let after = events.skip(k + 1);
    assert forall|i: int| 0 <= i < before.len() implies !tears_down(#[trigger] before[i]) by {
        assert(before[i] == events[i]);
    }
    lemma_outgoing_candidates_in_order(peer, before);
    assert(upto.drop_last() =~= before);
    assert(upto.last() == events[k]);
    let closing = outgoing_run(peer, false, Some(Seq::<C>::empty()), upto);
    let pre = outgoing_run(peer, false, Some(Seq::<C>::empty()), before);
    assert(closing.0);
    assert(closing.2 =~= pre.2);
    lemma_closed_call_ignores_everything(peer, closing.1, after);
    lemma_outgoing_run_split(peer, false, Some(Seq::<C>::empty()), upto, after);
    assert(upto + after =~= events);
    assert(closing.2 + Seq::<C>::empty() =~= closing.2);
}

/// Once an outgoing call is closed, nothing that happens adds a candidate
/// to the connection or changes what is held back, and it stays closed.
pub proof fn lemma_closed_call_ignores_everything<C>(peer: u128, pending: Option<Seq<C>>, events: Seq<OutgoingEvent<C>>)
    ensures
        outgoing_run(peer, true, pending, events) == (true, pending, Seq::<C>::empty()),
    decreases events.len(),
{
    if events.len() > 0 {
        let prev = events.drop_last();
        lemma_closed_call_ignores_everything(peer, pending, prev);
        assert(Seq::<C>::empty() + Seq::<C>::empty() =~= Seq::<C>::empty());
    }
}

impl<C> OutgoingPeer<C> {
    /// A call to `peer` that has not been answered yet.
    pub fn new(peer: u128) -> (r: OutgoingPeer<C>)
        ensures
            r.peer == peer,
            !r.offered,
            !r.closed,
            r.pending matches Some(v) && v@.len() == 0,
    {
        OutgoingPeer { peer, offered: false, closed: false, pending: Some(Vec::new()) }
    }

    /// The local offer `typ`/`sdp` was made: the description to send to the
    /// peer, the first time only.
    pub fn offer(&mut self, typ: String, sdp: String, reason: OfferReason) -> (r: Option<RTCSessionDesc>)
        ensures
            final(self).peer == old(self).peer,
            final(self).closed == old(self).closed,
            final(self).pending == old(self).pending,
            final(self).offered,
            !old(self).offered ==> r == Some(RTCSessionDesc { typ, sdp, reason }),
            old(self).offered ==> r is None,
    {
        if self.offered {
            return None;
        }
        self.offered = true;
        Some(RTCSessionDesc { typ, sdp, reason })
    }

    /// Handles one event of the call and returns the candidates to add to
    /// the connection now.
    pub fn on_event(&mut self, ev: OutgoingEvent<C>) -> (r: Vec<C>)
        ensures
            final(self).peer == old(self).peer,
            final(self).offered == old(self).offered,
            final(self).closed == outgoing_step(old(self).peer, old(self).closed, pending_view(old(self).pending), ev).0,
            pending_view(final(self).pending) == outgoing_step(old(self).peer, old(self).closed, pending_view(old(self).pending), ev).1,
            r@ == outgoing_step(old(self).peer, old(self).closed, pending_view(old(self).pending), ev).2,
    {
        match ev {
            OutgoingEvent::Candidate(from, c) => match self.on_candidate(from, c) {
                Some(c) => {
                    let mut v = Vec::new();
                    v.push(c);
                    v
                },
                None => Vec::new(),
            },
            OutgoingEvent::Answer(from) => if self.accepts_session(from) {
                self.on_answer_applied()
            } else {
                Vec::new()
            },
            OutgoingEvent::StateChanged(s) => {
                self.on_state(s);
                Vec::new()
            },
        }
    }

    /// Whether a session description from `from` concerns this call.
    pub fn accepts_session(&self, from: u128) -> (r: bool)
        ensures
            r == (!self.closed && from == self.peer),
    {
        !self.closed && from == self.peer
    }

    /// A candidate from `from` arrived: returns it when it is to be added to
    /// the connection now; holds it back before the answer; drops it when
    /// it is for another call or the call is closed.
    pub fn on_candidate(&mut self, from: u128, candidate: C) -> (r: Option<C>)
        ensures
            final(self).peer == old(self).peer,
            final(self).offered == old(self).offered,
            final(self).closed == old(self).closed,
            old(self).closed || from != old(self).peer ==> r is None && final(self).pending == old(self).pending,
            !old(self).closed && from == old(self).peer ==> match old(self).pending {
                Some(v) => r is None && (final(self).pending matches Some(w) && w@ == v@.push(candidate)),
                None => r == Some(candidate) && final(self).pending is None,
            },
    {
        if self.closed || from != self.peer {
            return None;
        }
        let mut slot: Option<Vec<C>> = None;
        std::mem::swap(&mut slot, &mut self.pending);
        match slot {
            Some(mut v) => {
                v.push(candidate);
                self.pending = Some(v);
                None
            },
            None => Some(candidate),
        }
    }

    /// The answer was applied: hands out the held-back candidates, in the
    /// order they came, and from now on candidates are added at once.
    pub fn on_answer_applied(&mut self) -> (r: Vec<C>)
        ensures
            final(self).peer == old(self).peer,
            final(self).offered == old(self).offered,
            final(self).closed == old(self).closed,
            final(self).pending is None,
            match old(self).pending {
                Some(v) => r@ == v@,
                None => r@.len() == 0,
            },
    {
        let mut slot: Option<Vec<C>> = None;
        std::mem::swap(&mut slot, &mut self.pending);
        match slot {
            Some(v) => v,
            None => Vec::new(),
        }
    }

    /// The connection changed state; once it is closed or disconnected the
    /// call is over.
    pub fn on_state(&mut self, state: PeerConnectionState) -> (r: PeerAction)
        ensures
            r == spec_peer_action(state),
            final(self).peer == old(self).peer,
            final(self).offered == old(self).offered,
            final(self).pending == old(self).pending,
            final(self).closed == (old(self).closed || r == PeerAction::Teardown),
    {
        let action = peer_action(state);
        if action == PeerAction::Teardown {
            self.closed = true;
        }
        action
    }
}

/// Calls offered to this client: the connections taken up, by peer, and
/// the candidates of peers whose offer is not taken up yet.
#[derive(Debug)]
pub struct IncomingPeers<P, C> {
    peers: HashMap<u128, P>,
    pending: HashMap<u128, Vec<C>>,
}

impl<P, C> IncomingPeers<P, C> {
    /// The connections by peer.
    pub closed spec fn peers(&self) -> Map<u128, P> {
        self.peers@
    }

    /// The held-back candidates by peer, in the order they came.
    pub closed spec fn pending(&self) -> Map<u128, Seq<C>> {
        self.pending@.map_values(|v: Vec<C>| v@)
    }

    /// No connections and nothing held back.
    pub fn new() -> (r: IncomingPeers<P, C>)
        ensures
            r.peers() == Map::<u128, P>::empty(),
            r.pending() == Map::<u128, Seq<C>>::empty(),
    {
        let r = IncomingPeers { peers: HashMap::new(), pending: HashMap::new() };
        assert(r.pending() =~= Map::<u128, Seq<C>>::empty());
        r
    }

    /// A candidate from `from` arrived: with a connection to `from` it is
    /// returned, to be added to that connection; otherwise it is held back.
    pub fn on_candidate(&mut self, from: u128, candidate: C) -> (r: Option<C>)
        ensures
            final(self).peers() == old(self).peers(),
            old(self).peers().contains_key(from) ==> r == Some(candidate) && final(self).pending() == old(self).pending(),
            !old(self).peers().contains_key(from) ==> {
                &&& r is None
                &&& final(self).pending() == old(self).pending().insert(from, queued(old(self).pending(), from).push(candidate))
            },
    {
        if self.peers.contains_key(&from) {
            return Some(candidate);
        }
        let ghost before = self.pending();
        let mut queue = match self.pending.remove(&from) {
            Some(v) => v,
            None => Vec::new(),
        };
        queue.push(candidate);
        self.pending.insert(from, queue);
        assert(self.pending() =~= before.insert(from, queued(before, from).push(candidate)));
        None
    }

    /// The offer of `from` was taken up with connection `pc`: hands out the
    /// candidates held back for `from`, in order, and records the
    /// connection.
    pub fn on_accepted(&mut self, from: u128, pc: P) -> (r: Vec<C>)
        ensures
            r@ == queued(old(self).pending(), from),
            final(self).pending() == old(self).pending().remove(from),
            final(self).peers() == old(self).peers().insert(from, pc),
    {
        let ghost before = self.pending();
        let flushed = match self.pending.remove(&from) {
            Some(v) => v,
            None => Vec::new(),
        };
        self.peers.insert(from, pc);
        assert(self.pending() =~= before.remove(from));
        flushed
    }

    /// The connection to `from` changed state; a closed or disconnected
    /// connection is forgotten.
    pub fn on_state(&mut self, from: u128, state: PeerConnectionState) -> (r: PeerAction)
        ensures
            r == spec_peer_action(state),
            final(self).pending() == old(self).pending(),
            r == PeerAction::Teardown ==> final(self).peers() == old(self).peers().remove(from),
            r != PeerAction::Teardown ==> final(self).peers() == old(self).peers(),
    {
        let action = peer_action(state);
        if action == PeerAction::Teardown {
            self.peers.remove(&from);
        }
        action
    }

    /// Whether there is a connection to `from`.
    pub fn has_peer(&self, from: u128) -> (r: bool)
        ensures
            r == self.peers().contains_key(from),
    {
        self.peers.contains_key(&from)
    }
}

/// The candidates held back for `from`; none when nothing is.
pub open spec fn queued<C>(pending: Map<u128, Seq<C>>, from: u128) -> Seq<C> {
    if pending.contains_key(from) {
        pending[from]
    } else {
        Seq::empty()
    }
}

} // verus!
