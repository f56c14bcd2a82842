use elara::{
    ConnectionQuality, ElaraConfig, ElaraError, ElaraNode, ElaraSession, SessionStatus,
    TransportManager, TransportType,
};
use elara::transport::ConnectivityCheck;

fn session() -> ElaraSession {
    ElaraSession::started_at("s1".to_string(), "peerA".to_string(), "peerB".to_string(), 1_000)
}

fn active() -> ElaraSession {
    let mut s = session();
    assert_eq!(s.connect(Some(TransportType::StunAssisted)), Ok(()));
    s
}

fn ended() -> ElaraSession {
    let mut s = active();
    assert!(s.close());
    s
}

#[test]
fn new_session_is_waiting_with_media_enabled() {
    let s = session();
    assert_eq!(s.session_id(), "s1");
    assert_eq!(s.local_peer_id(), "peerA");
    assert_eq!(s.remote_peer_id(), "peerB");
    assert_eq!(s.get_status(), SessionStatus::Waiting);
    assert!(s.is_video_enabled());
    assert!(s.is_audio_enabled());
    assert_eq!(
        s.get_quality(),
        ConnectionQuality { score: 100, latency_ms: 0, packet_loss: 0, bandwidth_kbps: 0 }
    );
    assert_eq!(s.duration_at(1_000), 0);
}

#[test]
fn new_session_reads_the_clock() {
    let s = ElaraSession::new("s".to_string(), "a".to_string(), "b".to_string());
    assert_eq!(s.get_status(), SessionStatus::Waiting);
    assert_eq!(s.session_id(), "s");
    assert_eq!(s.local_peer_id(), "a");
    assert_eq!(s.remote_peer_id(), "b");
    // Created after 2020, by any sane clock, and not in the future.
    assert!(s.duration_at(1_577_836_800) == 0);
    assert!(s.get_duration() < 60);
}

#[test]
fn has_session_id_compares_text() {
    let s = session();
    assert!(s.has_session_id(&"s1".to_string()));
    assert!(!s.has_session_id(&"s2".to_string()));
    assert!(!s.has_session_id(&"".to_string()));
}

#[test]
fn connect_with_a_transport_activates() {
    let mut s = session();
    assert_eq!(s.connect(Some(TransportType::TcpFallback)), Ok(()));
    assert_eq!(s.get_status(), SessionStatus::Active);
}

#[test]
fn connect_without_a_transport_fails_and_stays_waiting() {
    let mut s = session();
    assert_eq!(s.connect(None), Err(ElaraError::NegotiationFailed));
    assert_eq!(s.get_status(), SessionStatus::Waiting);
    assert_eq!(s.connect(Some(TransportType::Direct)), Ok(()));
    assert_eq!(s.get_status(), SessionStatus::Active);
}

#[test]
fn connect_on_active_is_a_no_op() {
    let mut s = active();
    assert_eq!(s.connect(Some(TransportType::Direct)), Ok(()));
    assert_eq!(s.get_status(), SessionStatus::Active);
    assert_eq!(s.connect(None), Ok(()));
    assert_eq!(s.get_status(), SessionStatus::Active);
}

#[test]
fn connect_on_paused_needs_a_transport() {
    let mut s = active();
    assert!(s.pause());
    assert_eq!(s.connect(None), Err(ElaraError::NegotiationFailed));
    assert_eq!(s.get_status(), SessionStatus::Paused);
    assert_eq!(s.connect(Some(TransportType::Direct)), Ok(()));
    assert_eq!(s.get_status(), SessionStatus::Active);
}

#[test]
fn connect_on_ended_is_refused() {
    let mut s = ended();
    assert_eq!(s.connect(Some(TransportType::Direct)), Err(ElaraError::InvalidState));
    assert_eq!(s.get_status(), SessionStatus::Ended);
    assert_eq!(s.connect(None), Err(ElaraError::InvalidState));
    assert_eq!(s.get_status(), SessionStatus::Ended);
}

#[test]
fn pause_only_from_active() {
    let mut waiting = session();
    assert!(!waiting.pause());
    assert_eq!(waiting.get_status(), SessionStatus::Waiting);

    let mut s = active();
    assert!(s.pause());
    assert_eq!(s.get_status(), SessionStatus::Paused);
    assert!(!s.pause());
    assert_eq!(s.get_status(), SessionStatus::Paused);

    let mut e = ended();
    assert!(!e.pause());
    assert_eq!(e.get_status(), SessionStatus::Ended);
}

#[test]
fn resume_only_from_paused() {
    let mut waiting = session();
    assert!(!waiting.resume());
    assert_eq!(waiting.get_status(), SessionStatus::Waiting);

    let mut s = active();
    assert!(!s.resume());
    assert_eq!(s.get_status(), SessionStatus::Active);
    assert!(s.pause());
    assert!(s.resume());
    assert_eq!(s.get_status(), SessionStatus::Active);

    let mut e = ended();
    assert!(!e.resume());
    assert_eq!(e.get_status(), SessionStatus::Ended);
}

#[test]
fn close_from_every_state() {
    let mut waiting = session();
    assert!(waiting.close());
    assert_eq!(waiting.get_status(), SessionStatus::Ended);

    let mut a = active();
    assert!(a.close());
    assert_eq!(a.get_status(), SessionStatus::Ended);

    let mut p = active();
    assert!(p.pause());
    assert!(p.close());
    assert_eq!(p.get_status(), SessionStatus::Ended);
}

#[test]
fn close_twice_is_close_once() {
    let mut s = active();
    assert!(s.close());
    let id = s.session_id();
    let video = s.is_video_enabled();
    assert!(!s.close());
    assert_eq!(s.get_status(), SessionStatus::Ended);
    assert_eq!(s.session_id(), id);
    assert_eq!(s.is_video_enabled(), video);
    assert!(!s.close());
    assert_eq!(s.get_status(), SessionStatus::Ended);
}

#[test]
fn toggles_flip_and_return_the_new_value() {
    let mut s = session();
    assert!(!s.toggle_video());
    assert!(!s.is_video_enabled());
    assert!(s.is_audio_enabled());
    assert!(s.toggle_video());
    assert!(s.is_video_enabled());
    assert!(!s.toggle_audio());
    assert!(!s.is_audio_enabled());
    assert!(s.is_video_enabled());
    assert!(s.toggle_audio());
    assert_eq!(s.get_status(), SessionStatus::Waiting);
}

#[test]
fn toggles_on_an_ended_session_keep_it_ended() {
    let mut s = ended();
    assert!(!s.toggle_video());
    assert!(!s.toggle_audio());
    assert_eq!(s.get_status(), SessionStatus::Ended);
}

#[test]
fn operations_keep_identity_quality_and_start_time() {
    let mut s = session();
    let _ = s.connect(Some(TransportType::Direct));
    s.pause();
    s.resume();
    s.toggle_video();
    s.close();
    assert_eq!(s.session_id(), "s1");
    assert_eq!(s.local_peer_id(), "peerA");
    assert_eq!(s.remote_peer_id(), "peerB");
    assert_eq!(s.get_quality(), ConnectionQuality::unmeasured());
    assert_eq!(s.duration_at(1_010), 10);
}

#[test]
fn duration_is_elapsed_time_and_never_negative() {
    let s = session();
    assert_eq!(s.duration_at(1_000), 0);
    assert_eq!(s.duration_at(1_001), 1);
    assert_eq!(s.duration_at(4_600), 3_600);
    assert_eq!(s.duration_at(u64::MAX), u64::MAX - 1_000);
    assert_eq!(s.duration_at(999), 0);
    assert_eq!(s.duration_at(0), 0);
}

#[test]
fn duration_is_monotonic() {
    let s = session();
    let mut last = 0;
    for now in [0u64, 500, 1_000, 1_001, 2_000, 1u64 << 40, u64::MAX] {
        let d = s.duration_at(now);
        assert!(d >= last);
        last = d;
    }
    let first = s.get_duration();
    let second = s.get_duration();
    assert!(second >= first);
}

#[test]
fn clone_is_a_snapshot() {
    let mut s = active();
    let snapshot = s.clone();
    s.close();
    assert_eq!(snapshot.get_status(), SessionStatus::Active);
    assert_eq!(snapshot.session_id(), "s1");
    assert_eq!(s.get_status(), SessionStatus::Ended);
}

#[test]
fn scenario_create_connect_and_measure_duration() {
    let mut node = ElaraNode::new(None);
    let config = ElaraConfig::default();
    let mut session = node.create_session("s1".to_string(), "peerB".to_string()).unwrap();
    assert_eq!(session.get_status(), SessionStatus::Waiting);
    assert_eq!(session.local_peer_id(), node.node_id());
    assert_eq!(session.remote_peer_id(), "peerB");

    let mut transport = TransportManager::new(config.stun_servers, config.turn_servers);
    let checks: Vec<ConnectivityCheck> = transport
        .gather_candidates()
        .into_iter()
        .map(|candidate| ConnectivityCheck { candidate, reachable: true, rtt_ms: 20 })
        .collect();
    let selected = transport.start_connectivity_checks(&checks).ok();
    assert_eq!(selected, Some(TransportType::Direct));

    assert_eq!(session.connect(selected), Ok(()));
    assert_eq!(session.get_status(), SessionStatus::Active);
    assert_eq!(node.connect_session("s1".to_string(), selected), Ok(()));
    let registered = node.get_session("s1".to_string()).unwrap();
    assert_eq!(registered.get_status(), SessionStatus::Active);
    assert!(registered.get_duration() < 60);

    let first = session.get_duration();
    let second = session.get_duration();
    assert!(second >= first);
    let mut last = 0;
    for now in [0u64, 1 << 20, 1 << 40, u64::MAX] {
        let d = session.duration_at(now);
        assert!(d >= last);
        last = d;
    }
}

#[test]
fn scenario_with_three_peer_identifiers() {
    let mut session = ElaraSession::new("s1".to_string(), "peerA".to_string(), "peerB".to_string());
    assert_eq!(session.connect(Some(TransportType::Direct)), Ok(()));
    assert_eq!(session.get_status(), SessionStatus::Active);
    let first = session.get_duration();
    let second = session.get_duration();
    assert!(second >= first);
}
