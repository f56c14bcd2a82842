use elara::transport::{select_path, ConnectivityCheck};
use elara::{ElaraError, IceCandidate, TransportManager, TransportType};

fn candidate(candidate_type: &str, protocol: &str, priority: u32) -> IceCandidate {
    IceCandidate {
        candidate_type: candidate_type.to_string(),
        protocol: protocol.to_string(),
        address: "192.0.2.7".to_string(),
        port: 4000,
        priority,
    }
}

fn check(class: TransportType, reachable: bool, rtt_ms: u32) -> ConnectivityCheck {
    ConnectivityCheck { candidate: IceCandidate::placeholder(class), reachable, rtt_ms }
}

fn manager() -> TransportManager {
    TransportManager::new(vec!["stun:a".to_string()], vec!["turn:b".to_string()])
}

fn fields(c: &IceCandidate) -> (&str, &str, &str, u16, u32) {
    (c.candidate_type.as_str(), c.protocol.as_str(), c.address.as_str(), c.port, c.priority)
}

#[test]
fn priorities_are_fixed_and_strictly_ordered() {
    assert_eq!(TransportType::Direct.priority(), 126);
    assert_eq!(TransportType::StunAssisted.priority(), 100);
    assert_eq!(TransportType::TurnRelay.priority(), 50);
    assert_eq!(TransportType::TcpFallback.priority(), 25);
    let all = [
        TransportType::Direct,
        TransportType::StunAssisted,
        TransportType::TurnRelay,
        TransportType::TcpFallback,
    ];
    for i in 0..all.len() {
        for j in 0..all.len() {
            assert_eq!(all[i].priority() == all[j].priority(), i == j);
            assert_eq!(all[i].priority() > all[j].priority(), i < j);
        }
    }
}

#[test]
fn class_names() {
    assert_eq!(TransportType::Direct.name(), "Direct");
    assert_eq!(TransportType::StunAssisted.name(), "StunAssisted");
    assert_eq!(TransportType::TurnRelay.name(), "TurnRelay");
    assert_eq!(TransportType::TcpFallback.name(), "TcpFallback");
}

#[test]
fn placeholders_of_each_class() {
    assert_eq!(
        fields(&IceCandidate::placeholder(TransportType::Direct)),
        ("host", "udp", "0.0.0.0", 0, 126)
    );
    assert_eq!(
        fields(&IceCandidate::placeholder(TransportType::StunAssisted)),
        ("srflx", "udp", "0.0.0.0", 0, 100)
    );
    assert_eq!(
        fields(&IceCandidate::placeholder(TransportType::TurnRelay)),
        ("relay", "udp", "0.0.0.0", 0, 50)
    );
    assert_eq!(
        fields(&IceCandidate::placeholder(TransportType::TcpFallback)),
        ("host", "tcp", "0.0.0.0", 0, 25)
    );
}

#[test]
fn transport_class_of_a_candidate() {
    assert_eq!(candidate("host", "udp", 1).transport_class(), Some(TransportType::Direct));
    assert_eq!(candidate("srflx", "udp", 1).transport_class(), Some(TransportType::StunAssisted));
    assert_eq!(candidate("relay", "udp", 1).transport_class(), Some(TransportType::TurnRelay));
    assert_eq!(candidate("host", "tcp", 1).transport_class(), Some(TransportType::TcpFallback));
    assert_eq!(candidate("srflx", "tcp", 1).transport_class(), None);
    assert_eq!(candidate("relay", "tcp", 1).transport_class(), None);
    assert_eq!(candidate("prflx", "udp", 1).transport_class(), None);
    assert_eq!(candidate("host", "sctp", 1).transport_class(), None);
    assert_eq!(candidate("Host", "udp", 1).transport_class(), None);
    assert_eq!(candidate("", "", 1).transport_class(), None);
    for class in [
        TransportType::Direct,
        TransportType::StunAssisted,
        TransportType::TurnRelay,
        TransportType::TcpFallback,
    ] {
        assert_eq!(IceCandidate::placeholder(class).transport_class(), Some(class));
    }
}

#[test]
fn new_manager_defaults_to_direct_without_candidates() {
    let m = manager();
    assert_eq!(m.get_transport_type(), TransportType::Direct);
    assert!(m.local_candidates().is_empty());
    assert!(m.remote_candidates().is_empty());
}

#[test]
fn scenario_gather_with_one_stun_and_one_turn_server() {
    let mut m = manager();
    let candidates = m.gather_candidates();
    assert!(candidates.len() >= 4);
    assert_eq!(candidates.len(), 4);
    let tcp_hosts: Vec<&IceCandidate> = candidates
        .iter()
        .filter(|c| c.protocol == "tcp" && c.candidate_type == "host")
        .collect();
    assert_eq!(tcp_hosts.len(), 1);
    assert_eq!(tcp_hosts[0].priority, 25);
    assert_eq!(candidates.iter().filter(|c| c.protocol == "tcp").count(), 1);
    assert_eq!(fields(&candidates[0]), ("host", "udp", "0.0.0.0", 0, 126));
    assert_eq!(fields(&candidates[1]), ("srflx", "udp", "0.0.0.0", 0, 100));
    assert_eq!(fields(&candidates[2]), ("relay", "udp", "0.0.0.0", 0, 50));
    assert_eq!(fields(&candidates[3]), ("host", "tcp", "0.0.0.0", 0, 25));
}

#[test]
fn gather_without_servers_is_never_empty() {
    let mut m = TransportManager::new(vec![], vec![]);
    let candidates = m.gather_candidates();
    assert_eq!(candidates.len(), 2);
    assert_eq!(fields(&candidates[0]), ("host", "udp", "0.0.0.0", 0, 126));
    assert_eq!(fields(&candidates[1]), ("host", "tcp", "0.0.0.0", 0, 25));
}

#[test]
fn gather_gives_one_candidate_per_server_in_priority_order() {
    let stun = vec!["s1".to_string(), "s2".to_string(), "s3".to_string()];
    let turn = vec!["t1".to_string(), "t2".to_string()];
    let mut m = TransportManager::new(stun, turn);
    let candidates = m.gather_candidates();
    let priorities: Vec<u32> = candidates.iter().map(|c| c.priority).collect();
    assert_eq!(priorities, vec![126, 100, 100, 100, 50, 50, 25]);
    let types: Vec<&str> = candidates.iter().map(|c| c.candidate_type.as_str()).collect();
    assert_eq!(types, vec!["host", "srflx", "srflx", "srflx", "relay", "relay", "host"]);
}

#[test]
fn gather_remembers_the_candidates_and_changes_nothing_else() {
    let mut m = manager();
    m.add_remote_candidate(candidate("host", "udp", 9));
    let candidates = m.gather_candidates();
    let kept = m.local_candidates();
    assert_eq!(kept.len(), candidates.len());
    for (a, b) in kept.iter().zip(candidates.iter()) {
        assert_eq!(fields(a), fields(b));
    }
    assert_eq!(m.get_transport_type(), TransportType::Direct);
    assert_eq!(m.remote_candidates().len(), 1);
    let again = m.gather_candidates();
    assert_eq!(again.len(), 4);
    assert_eq!(m.local_candidates().len(), 4);
}

#[test]
fn remote_candidates_arrive_in_order() {
    let mut m = manager();
    m.add_remote_candidate(candidate("relay", "udp", 7));
    m.add_remote_candidate(candidate("host", "tcp", 3));
    let pool = m.remote_candidates();
    assert_eq!(pool.len(), 2);
    assert_eq!(fields(&pool[0]), ("relay", "udp", "192.0.2.7", 4000, 7));
    assert_eq!(fields(&pool[1]), ("host", "tcp", "192.0.2.7", 4000, 3));
    assert!(m.local_candidates().is_empty());
    assert_eq!(m.get_transport_type(), TransportType::Direct);
}

#[test]
fn select_path_prefers_class_then_round_trip_then_position() {
    assert_eq!(select_path(&vec![]), None);
    assert_eq!(select_path(&vec![check(TransportType::Direct, false, 1)]), None);

    let checks = vec![
        check(TransportType::TcpFallback, true, 1),
        check(TransportType::TurnRelay, true, 5),
        check(TransportType::StunAssisted, true, 90),
        check(TransportType::Direct, false, 2),
    ];
    assert_eq!(select_path(&checks), Some(2));

    let same_class = vec![
        check(TransportType::TurnRelay, true, 40),
        check(TransportType::TurnRelay, true, 12),
        check(TransportType::TurnRelay, false, 1),
        check(TransportType::TurnRelay, true, 12),
        check(TransportType::TcpFallback, true, 0),
    ];
    assert_eq!(select_path(&same_class), Some(1));

    let zero_rtt_first = vec![
        check(TransportType::Direct, true, 0),
        check(TransportType::Direct, true, 0),
    ];
    assert_eq!(select_path(&zero_rtt_first), Some(0));
}

#[test]
fn select_path_ignores_candidates_of_no_class() {
    let checks = vec![
        ConnectivityCheck { candidate: candidate("prflx", "udp", 999), reachable: true, rtt_ms: 1 },
        ConnectivityCheck { candidate: candidate("host", "tcp", 1), reachable: true, rtt_ms: 50 },
    ];
    assert_eq!(select_path(&checks), Some(1));
    assert_eq!(select_path(&checks[..1].to_vec()), None);
}

#[test]
fn select_path_goes_by_class_not_by_the_priority_field() {
    let checks = vec![
        ConnectivityCheck { candidate: candidate("relay", "udp", 1000), reachable: true, rtt_ms: 1 },
        ConnectivityCheck { candidate: candidate("host", "udp", 1), reachable: true, rtt_ms: 500 },
    ];
    assert_eq!(select_path(&checks), Some(1));
}

#[test]
fn connectivity_checks_select_the_best_connectable_class() {
    let mut m = manager();
    let checks = vec![
        check(TransportType::TcpFallback, true, 1),
        check(TransportType::TurnRelay, true, 1),
        check(TransportType::StunAssisted, false, 1),
        check(TransportType::Direct, false, 1),
    ];
    assert_eq!(m.start_connectivity_checks(&checks), Ok(TransportType::TurnRelay));
    assert_eq!(m.get_transport_type(), TransportType::TurnRelay);

    let all = vec![
        check(TransportType::TcpFallback, true, 1),
        check(TransportType::Direct, true, 900),
        check(TransportType::StunAssisted, true, 1),
    ];
    assert_eq!(m.start_connectivity_checks(&all), Ok(TransportType::Direct));
    assert_eq!(m.get_transport_type(), TransportType::Direct);
}

#[test]
fn connectivity_checks_fall_back_to_tcp_when_udp_is_blocked() {
    let mut m = manager();
    let checks: Vec<ConnectivityCheck> = m
        .gather_candidates()
        .into_iter()
        .map(|c| {
            let reachable = c.protocol == "tcp";
            ConnectivityCheck { candidate: c, reachable, rtt_ms: 80 }
        })
        .collect();
    assert_eq!(m.start_connectivity_checks(&checks), Ok(TransportType::TcpFallback));
    assert_eq!(m.get_transport_type(), TransportType::TcpFallback);
}

#[test]
fn connectivity_checks_may_select_a_lower_class_than_before() {
    let mut m = manager();
    assert_eq!(
        m.start_connectivity_checks(&vec![check(TransportType::TurnRelay, true, 1)]),
        Ok(TransportType::TurnRelay)
    );
}

#[test]
fn connectivity_checks_fail_without_a_passed_probe() {
    let mut m = manager();
    assert_eq!(m.start_connectivity_checks(&vec![]), Err(ElaraError::NegotiationFailed));
    assert_eq!(m.get_transport_type(), TransportType::Direct);

    let ok = vec![check(TransportType::StunAssisted, true, 3)];
    assert_eq!(m.start_connectivity_checks(&ok), Ok(TransportType::StunAssisted));
    let failed = vec![
        check(TransportType::Direct, false, 1),
        check(TransportType::TcpFallback, false, 1),
    ];
    assert_eq!(m.start_connectivity_checks(&failed), Err(ElaraError::NegotiationFailed));
    assert_eq!(m.get_transport_type(), TransportType::StunAssisted);
}

#[test]
fn connectivity_checks_leave_servers_and_candidates_alone() {
    let mut m = manager();
    m.gather_candidates();
    m.add_remote_candidate(candidate("host", "udp", 1));
    let _ = m.start_connectivity_checks(&vec![check(TransportType::TurnRelay, true, 1)]);
    assert_eq!(m.local_candidates().len(), 4);
    assert_eq!(m.remote_candidates().len(), 1);
    assert_eq!(m.gather_candidates().len(), 4);
}

#[test]
fn stats_name_the_active_class() {
    let mut m = manager();
    let s = m.get_stats();
    assert_eq!(s.transport_type, "Direct");
    assert_eq!(s.local_address, "0.0.0.0:0");
    assert_eq!(s.remote_address, "0.0.0.0:0");
    assert_eq!((s.bytes_sent, s.bytes_received, s.latency_ms), (0, 0, 0));
    let _ = m.start_connectivity_checks(&vec![check(TransportType::TcpFallback, true, 70)]);
    assert_eq!(m.get_stats().transport_type, "TcpFallback");
    let _ = m.start_connectivity_checks(&vec![check(TransportType::StunAssisted, true, 70)]);
    assert_eq!(m.get_stats().transport_type, "StunAssisted");
    let _ = m.start_connectivity_checks(&vec![check(TransportType::TurnRelay, true, 70)]);
    assert_eq!(m.get_stats().transport_type, "TurnRelay");
}

fn manager_on(class: TransportType) -> TransportManager {
    let mut m = manager();
    assert_eq!(m.start_connectivity_checks(&vec![check(class, true, 10)]), Ok(class));
    m
}

#[test]
fn upgrade_on_direct_is_always_no_change() {
    let everything = vec![
        check(TransportType::Direct, true, 1),
        check(TransportType::StunAssisted, true, 1),
        check(TransportType::TurnRelay, true, 1),
        check(TransportType::TcpFallback, true, 1),
    ];
    let mut fresh = manager();
    assert!(!fresh.try_upgrade(&everything));
    assert_eq!(fresh.get_transport_type(), TransportType::Direct);
    let mut m = manager_on(TransportType::Direct);
    assert!(!m.try_upgrade(&everything));
    assert!(!m.try_upgrade(&vec![]));
    assert_eq!(m.get_transport_type(), TransportType::Direct);
}

#[test]
fn upgrade_moves_to_a_better_class() {
    let mut relay = manager_on(TransportType::TurnRelay);
    assert!(relay.try_upgrade(&vec![check(TransportType::StunAssisted, true, 30)]));
    assert_eq!(relay.get_transport_type(), TransportType::StunAssisted);
    assert!(relay.try_upgrade(&vec![check(TransportType::Direct, true, 30)]));
    assert_eq!(relay.get_transport_type(), TransportType::Direct);

    let mut relay = manager_on(TransportType::TurnRelay);
    assert!(relay.try_upgrade(&vec![
        check(TransportType::StunAssisted, true, 1),
        check(TransportType::Direct, true, 500),
    ]));
    assert_eq!(relay.get_transport_type(), TransportType::Direct);

    for class in [TransportType::TurnRelay, TransportType::StunAssisted, TransportType::Direct] {
        let mut tcp = manager_on(TransportType::TcpFallback);
        assert!(tcp.try_upgrade(&vec![check(class, true, 30)]));
        assert_eq!(tcp.get_transport_type(), class);
    }
}

#[test]
fn failed_upgrade_changes_nothing_and_never_downgrades() {
    let classes = [
        TransportType::Direct,
        TransportType::StunAssisted,
        TransportType::TurnRelay,
        TransportType::TcpFallback,
    ];
    for current in classes {
        for offered in classes {
            for reachable in [true, false] {
                let mut m = manager_on(current);
                let upgraded = m.try_upgrade(&vec![check(offered, reachable, 1)]);
                let after = m.get_transport_type();
                assert!(after.priority() >= current.priority());
                assert_eq!(upgraded, reachable && offered.priority() > current.priority());
                assert_eq!(after, if upgraded { offered } else { current });
            }
        }
    }
    let mut stun = manager_on(TransportType::StunAssisted);
    assert!(!stun.try_upgrade(&vec![]));
    assert!(!stun.try_upgrade(&vec![check(TransportType::Direct, false, 1)]));
    assert!(!stun.try_upgrade(&vec![check(TransportType::StunAssisted, true, 0)]));
    assert!(!stun.try_upgrade(&vec![check(TransportType::TcpFallback, true, 0)]));
    assert_eq!(stun.get_transport_type(), TransportType::StunAssisted);
}

#[test]
fn candidate_clone_keeps_every_field() {
    let c = candidate("srflx", "udp", 77);
    let d = c.clone();
    assert_eq!(fields(&c), fields(&d));
}
