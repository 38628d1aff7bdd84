use tvmate::peer::{
    check_tracks, missing_tracks, offer_decision, peer_action, CallPermissions, IncomingPeers, OfferDecision,
    stream_for_track, OutgoingEvent, OutgoingPeer, PeerAction, PeerConnectionState, StreamKind,
};
use tvmate::message::OfferReason;

#[test]
fn permissions_read_back_and_default_to_nothing() {
    let mut p = CallPermissions::new();
    assert_eq!(p.get(5), (false, false));
    p.grant(5, true, false);
    assert_eq!(p.get(5), (true, false));
    p.grant(5, false, true);
    assert_eq!(p.get(5), (false, true));
    assert_eq!(p.get(6), (false, false));
}

#[test]
fn offers_are_checked_in_order() {
    assert_eq!(offer_decision("bogus", Some(1), true, (true, true)), OfferDecision::UnknownType);
    assert_eq!(offer_decision("answer", Some(1), true, (true, true)), OfferDecision::NotOffer);
    assert_eq!(offer_decision("rollback", None, false, (false, false)), OfferDecision::NotOffer);
    assert_eq!(offer_decision("offer", None, true, (true, true)), OfferDecision::NoSelfId);
    assert_eq!(offer_decision("offer", Some(1), false, (true, true)), OfferDecision::NoRtcConfig);
    assert_eq!(offer_decision("offer", Some(1), true, (false, false)), OfferDecision::NotPermitted);
    assert_eq!(offer_decision("offer", Some(1), true, (false, true)), OfferDecision::Accept);
}

#[test]
fn track_checks() {
    assert_eq!(missing_tracks(true, true, true, false), (false, true));
    assert_eq!(missing_tracks(false, true, false, false), (false, true));
    assert!(check_tracks(true, false, true, false).is_ok());
    assert_eq!(check_tracks(true, true, false, true), Err("Cannot get video".to_string()));
    assert_eq!(check_tracks(false, true, false, false), Err("Cannot get video".to_string()));
}

#[test]
fn peer_states() {
    assert_eq!(peer_action(PeerConnectionState::Closed), PeerAction::Teardown);
    assert_eq!(peer_action(PeerConnectionState::Disconnected), PeerAction::Teardown);
    assert_eq!(peer_action(PeerConnectionState::Connected), PeerAction::Register);
    assert_eq!(peer_action(PeerConnectionState::Failed), PeerAction::Nothing);
}

#[test]
fn outgoing_call_holds_candidates_until_answer() {
    let mut call: OutgoingPeer<&str> = OutgoingPeer::new(7);
    assert_eq!(call.on_candidate(7, "a"), None);
    assert_eq!(call.on_candidate(8, "x"), None);
    assert_eq!(call.on_candidate(7, "b"), None);
    assert!(call.accepts_session(7));
    assert!(!call.accepts_session(8));
    assert_eq!(call.on_answer_applied(), vec!["a", "b"]);
    assert_eq!(call.on_candidate(7, "c"), Some("c"));
    assert!(call.on_answer_applied().is_empty());
    assert_eq!(call.on_state(PeerConnectionState::Disconnected), PeerAction::Teardown);
    assert!(call.closed);
    assert_eq!(call.on_candidate(7, "d"), None);
    assert!(!call.accepts_session(7));
}

#[test]
fn incoming_calls_queue_per_peer() {
    let mut peers: IncomingPeers<&str, u32> = IncomingPeers::new();
    assert_eq!(peers.on_candidate(1, 10), None);
    assert_eq!(peers.on_candidate(2, 20), None);
    assert_eq!(peers.on_candidate(1, 11), None);
    assert_eq!(peers.on_accepted(1, "pc1"), vec![10, 11]);
    assert!(peers.has_peer(1));
    assert_eq!(peers.on_candidate(1, 12), Some(12));
    assert_eq!(peers.on_state(1, PeerConnectionState::Connected), PeerAction::Register);
    assert!(peers.has_peer(1));
    assert_eq!(peers.on_state(1, PeerConnectionState::Closed), PeerAction::Teardown);
    assert!(!peers.has_peer(1));
    assert_eq!(peers.on_accepted(2, "pc2"), vec![20]);
    assert_eq!(peers.on_accepted(3, "pc3"), Vec::<u32>::new());
}

#[test]
fn offer_goes_out_once() {
    let mut call: OutgoingPeer<u8> = OutgoingPeer::new(3);
    let first = call.offer("offer".into(), "v=0".into(), OfferReason::VideoCall).unwrap();
    assert_eq!(first.typ, "offer");
    assert_eq!(first.sdp, "v=0");
    assert!(matches!(first.reason, OfferReason::VideoCall));
    assert!(call.offer("offer".into(), "v=1".into(), OfferReason::VideoCall).is_none());
    assert!(call.offered);
}

#[test]
fn event_run_adds_peer_candidates_in_order() {
    let mut call: OutgoingPeer<&str> = OutgoingPeer::new(7);
    let mut added: Vec<&str> = Vec::new();
    let events = vec![
        OutgoingEvent::Candidate(7, "a"),
        OutgoingEvent::Candidate(9, "x"),
        OutgoingEvent::StateChanged(PeerConnectionState::Connecting),
        OutgoingEvent::Candidate(7, "b"),
        OutgoingEvent::Answer(9),
        OutgoingEvent::Candidate(7, "b2"),
        OutgoingEvent::Answer(7),
        OutgoingEvent::Candidate(7, "c"),
        OutgoingEvent::Candidate(8, "y"),
        OutgoingEvent::StateChanged(PeerConnectionState::Connected),
        OutgoingEvent::Candidate(7, "d"),
    ];
    for ev in events {
        added.extend(call.on_event(ev));
    }
    assert_eq!(added, vec!["a", "b", "b2", "c", "d"]);
    assert!(call.pending.is_none());
    assert!(call.on_event(OutgoingEvent::StateChanged(PeerConnectionState::Closed)).is_empty());
    assert!(call.on_event(OutgoingEvent::Candidate(7, "e")).is_empty());
    assert!(call.on_event(OutgoingEvent::Answer(7)).is_empty());
    assert!(call.closed);
}

#[test]
fn received_tracks_are_routed_by_kind() {
    assert_eq!(stream_for_track(&"audio".to_string()), StreamKind::Audio);
    assert_eq!(stream_for_track(&"video".to_string()), StreamKind::Video);
    assert_eq!(stream_for_track(&"Audio".to_string()), StreamKind::Video);
}

#[test]
fn nothing_is_added_after_the_close() {
    let mut call: OutgoingPeer<u8> = OutgoingPeer::new(4);
    let events = vec![
        OutgoingEvent::Candidate(4, 1),
        OutgoingEvent::Answer(4),
        OutgoingEvent::Candidate(4, 2),
        OutgoingEvent::StateChanged(PeerConnectionState::Closed),
        OutgoingEvent::Candidate(4, 3),
        OutgoingEvent::Answer(4),
    ];
    let mut added = Vec::new();
    for ev in events {
        added.extend(call.on_event(ev));
    }
    assert_eq!(added, vec![1, 2]);
    let mut early: OutgoingPeer<u8> = OutgoingPeer::new(4);
    let mut added = Vec::new();
    for ev in [
        OutgoingEvent::Candidate(4, 1),
        OutgoingEvent::StateChanged(PeerConnectionState::Disconnected),
        OutgoingEvent::Answer(4),
    ] {
        added.extend(early.on_event(ev));
    }
    assert!(added.is_empty());
    assert!(early.closed);
}
