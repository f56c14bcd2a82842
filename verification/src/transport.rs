//! Transport negotiation: candidate gathering, path selection and upgrade.
//!
//! Four transport classes exist, in a fixed order of preference. The
//! negotiator offers one candidate per class and configured server, chooses
//! the most preferred class that proved reachable, and later moves to a
//! better class when one becomes reachable. It never moves to a worse one.

use crate::error::ElaraError;
use vstd::prelude::*;
use vstd::string::StringExecFns;

verus! {

/// The class of path a session runs over, most preferred first.
#[derive(Debug, Clone, Copy, PartialEq, Eq, Structural)]
pub enum TransportType {
    /// Direct peer-to-peer over UDP.
    Direct,
    /// UDP through an address discovered by a STUN server.
    StunAssisted,
    /// UDP relayed by a TURN server.
    TurnRelay,
    /// TCP, for networks that block UDP.
    TcpFallback,
}

impl TransportType {
    /// The preference of a class: a higher number is preferred.
    pub open spec fn spec_priority(self) -> u32 {
        match self {
            TransportType::Direct => 126,
            TransportType::StunAssisted => 100,
            TransportType::TurnRelay => 50,
            TransportType::TcpFallback => 25,
        }
    }

    /// The preference of a class: a higher number is preferred.
    #[verifier::when_used_as_spec(spec_priority)]
    pub fn priority(self) -> (p: u32)
        ensures
            p == self.spec_priority(),
    {
        match self {
            TransportType::Direct => 126,
            TransportType::StunAssisted => 100,
            TransportType::TurnRelay => 50,
            TransportType::TcpFallback => 25,
        }
    }

    /// The name of the class as it appears in statistics.
    pub open spec fn spec_name(self) -> Seq<char> {
        match self {
            TransportType::Direct => "Direct"@,
            TransportType::StunAssisted => "StunAssisted"@,
            TransportType::TurnRelay => "TurnRelay"@,
            TransportType::TcpFallback => "TcpFallback"@,
        }
    }

    /// The name of the class as it appears in statistics.
    pub fn name(self) -> (text: String)
        ensures
            text@ == self.spec_name(),
    {
        match self {
            TransportType::Direct => String::from_str("Direct"),
            TransportType::StunAssisted => String::from_str("StunAssisted"),
            TransportType::TurnRelay => String::from_str("TurnRelay"),
            TransportType::TcpFallback => String::from_str("TcpFallback"),
        }
    }
}

/// The order of preference is total and fixed: `Direct` (126) before
/// `StunAssisted` (100) before `TurnRelay` (50) before `TcpFallback` (25).
/// Two different classes never share a priority, so of any two classes
/// exactly one is preferred.
pub proof fn priority_order_is_total(a: TransportType, b: TransportType)
    ensures
        TransportType::Direct.spec_priority() == 126,
        TransportType::StunAssisted.spec_priority() == 100,
        TransportType::TurnRelay.spec_priority() == 50,
        TransportType::TcpFallback.spec_priority() == 25,
        a.spec_priority() == b.spec_priority() <==> a == b,
        a != b ==> (a.spec_priority() > b.spec_priority()) != (b.spec_priority()
            > a.spec_priority()),
{
}

/// One address at which a peer may be reached.
#[derive(Debug)]
pub struct IceCandidate {
    /// `host`, `srflx` or `relay`.
    pub candidate_type: String,
    /// `udp` or `tcp`.
    pub protocol: String,
    /// IP address.
    pub address: String,
    /// Port.
    pub port: u16,
    /// Preference: a higher number is preferred.
    pub priority: u32,
}

/// Mathematical model of an [`IceCandidate`].
pub ghost struct Candidate {
    pub candidate_type: Seq<char>,
    pub protocol: Seq<char>,
    pub address: Seq<char>,
    pub port: u16,
    pub priority: u32,
}

impl View for IceCandidate {
    type V = Candidate;

    open spec fn view(&self) -> Candidate {
        Candidate {
            candidate_type: self.candidate_type@,
            protocol: self.protocol@,
            address: self.address@,
            port: self.port,
            priority: self.priority,
        }
    }
}

impl Clone for IceCandidate {
    fn clone(&self) -> (copy: Self)
        ensures
            copy == *self,
    {
        IceCandidate {
            candidate_type: self.candidate_type.clone(),
            protocol: self.protocol.clone(),
            address: self.address.clone(),
            port: self.port,
            priority: self.priority,
        }
    }
}

/// The models of a sequence of candidates, in the same order.
pub open spec fn candidate_views(candidates: Seq<IceCandidate>) -> Seq<Candidate> {
    candidates.map_values(|c: IceCandidate| c@)
}

/// The candidate that stands for a transport class before any address is
/// known: the wildcard address, port 0, and the priority of the class.
pub open spec fn placeholder(class: TransportType) -> Candidate {
    Candidate {
        candidate_type: match class {
            TransportType::Direct => "host"@,
            TransportType::StunAssisted => "srflx"@,
            TransportType::TurnRelay => "relay"@,
            TransportType::TcpFallback => "host"@,
        },
        protocol: match class {
            TransportType::TcpFallback => "tcp"@,
            _ => "udp"@,
        },
        address: "0.0.0.0"@,
        port: 0,
        priority: class.spec_priority(),
    }
}

/// What gathering yields for `stun` STUN servers and `turn` TURN servers:
/// one host candidate, one server-reflexive candidate per STUN server, one
/// relay candidate per TURN server, and the TCP fallback last.
pub open spec fn gathered(stun: nat, turn: nat) -> Seq<Candidate> {
    seq![placeholder(TransportType::Direct)]
        + Seq::new(stun, |i: int| placeholder(TransportType::StunAssisted))
        + Seq::new(turn, |i: int| placeholder(TransportType::TurnRelay))
        + seq![placeholder(TransportType::TcpFallback)]
}

impl IceCandidate {
    /// The placeholder candidate of a transport class.
    pub fn placeholder(class: TransportType) -> (candidate: IceCandidate)
        ensures
            candidate@ == placeholder(class),
    {
        let candidate_type = match class {
            TransportType::Direct => String::from_str("host"),
            TransportType::StunAssisted => String::from_str("srflx"),
            TransportType::TurnRelay => String::from_str("relay"),
            TransportType::TcpFallback => String::from_str("host"),
        };
        let protocol = match class {
            TransportType::TcpFallback => String::from_str("tcp"),
            _ => String::from_str("udp"),
        };
        IceCandidate {
            candidate_type,
            protocol,
            address: String::from_str("0.0.0.0"),
            port: 0,
            priority: class.priority(),
        }
    }
}

/// The transport class that a candidate belongs to, by its type and
/// protocol; `None` for a combination that names no class.
pub open spec fn class_of(candidate: Candidate) -> Option<TransportType> {
    if candidate.protocol == "udp"@ {
        if candidate.candidate_type == "host"@ {
            Some(TransportType::Direct)
        } else if candidate.candidate_type == "srflx"@ {
            Some(TransportType::StunAssisted)
        } else if candidate.candidate_type == "relay"@ {
            Some(TransportType::TurnRelay)
        } else {
            None
        }
    } else if candidate.protocol == "tcp"@ && candidate.candidate_type == "host"@ {
        Some(TransportType::TcpFallback)
    } else {
        None
    }
}

impl IceCandidate {
    /// The transport class that the candidate belongs to, if any.
    pub fn transport_class(&self) -> (class: Option<TransportType>)
        ensures
            class == class_of(self@),
    {
        let host = String::from_str("host");
        if self.protocol == String::from_str("udp") {
            if self.candidate_type == host {
                Some(TransportType::Direct)
            } else if self.candidate_type == String::from_str("srflx") {
                Some(TransportType::StunAssisted)
            } else if self.candidate_type == String::from_str("relay") {
                Some(TransportType::TurnRelay)
            } else {
                None
            }
        } else if self.protocol == String::from_str("tcp") && self.candidate_type == host {
            Some(TransportType::TcpFallback)
        } else {
            None
        }
    }
}

/// The placeholder of a class belongs to that class.
pub proof fn placeholder_has_its_class(class: TransportType)
    ensures
        class_of(placeholder(class)) == Some(class),
{
    reveal_strlit("host");
    reveal_strlit("srflx");
    reveal_strlit("relay");
    reveal_strlit("udp");
    reveal_strlit("tcp");
    assert("udp"@.len() == 3 && "tcp"@.len() == 3);
    assert("udp"@[0] != "tcp"@[0]);
    assert("host"@.len() == 4 && "srflx"@.len() == 5 && "relay"@.len() == 5);
    assert("srflx"@[0] != "relay"@[0]);
}

/// The outcome of probing one candidate.
#[derive(Debug)]
pub struct ConnectivityCheck {
    /// The candidate that was probed.
    pub candidate: IceCandidate,
    /// Whether traffic passed in both directions.
    pub reachable: bool,
    /// Measured round-trip time in milliseconds.
    pub rtt_ms: u32,
}

/// Mathematical model of a [`ConnectivityCheck`].
pub ghost struct Probe {
    pub candidate: Candidate,
    pub reachable: bool,
    pub rtt_ms: u32,
}

impl View for ConnectivityCheck {
    type V = Probe;

    open spec fn view(&self) -> Probe {
        Probe { candidate: self.candidate@, reachable: self.reachable, rtt_ms: self.rtt_ms }
    }
}

impl Clone for ConnectivityCheck {
    fn clone(&self) -> (copy: Self)
        ensures
            copy == *self,
    {
        ConnectivityCheck {
            candidate: self.candidate.clone(),
            reachable: self.reachable,
            rtt_ms: self.rtt_ms,
        }
    }
}

/// The models of a sequence of checks, in the same order.
pub open spec fn probes(checks: Seq<ConnectivityCheck>) -> Seq<Probe> {
    checks.map_values(|c: ConnectivityCheck| c@)
}

impl Probe {
    /// The class that the probe showed connectable: that of its candidate
    /// if the probe passed, none otherwise.
    pub open spec fn reached(self) -> Option<TransportType> {
        if self.reachable {
            class_of(self.candidate)
        } else {
            None
        }
    }

    /// Whether `self` is strictly preferred to `other`: a class of higher
    /// priority, or the same class with a shorter round trip.
    pub open spec fn beats(self, other: Probe) -> bool {
        &&& self.reached() matches Some(mine)
        &&& other.reached() matches Some(theirs)
        &&& (mine.spec_priority() > theirs.spec_priority() || (mine == theirs && self.rtt_ms
            < other.rtt_ms))
    }
}

/// Whether some probe showed `class` connectable.
pub open spec fn connectable(checks: Seq<Probe>, class: TransportType) -> bool {
    exists|k: int| 0 <= k < checks.len() && #[trigger] checks[k].reached() == Some(class)
}

/// The class to use: the first connectable one in the order `Direct`,
/// `StunAssisted`, `TurnRelay`, `TcpFallback`; none if no probe passed.
pub open spec fn best_class(checks: Seq<Probe>) -> Option<TransportType> {
    if connectable(checks, TransportType::Direct) {
        Some(TransportType::Direct)
    } else if connectable(checks, TransportType::StunAssisted) {
        Some(TransportType::StunAssisted)
    } else if connectable(checks, TransportType::TurnRelay) {
        Some(TransportType::TurnRelay)
    } else if connectable(checks, TransportType::TcpFallback) {
        Some(TransportType::TcpFallback)
    } else {
        None
    }
}

/// Whether the probe at `index` is the one to use: it passed, no probe
/// beats it, and it beats every passed probe before it.
pub open spec fn is_selected(checks: Seq<Probe>, index: int) -> bool {
    &&& 0 <= index < checks.len()
    &&& checks[index].reached() is Some
    &&& forall|k: int| 0 <= k < checks.len() ==> !(#[trigger] checks[k]).beats(checks[index])
    &&& forall|k: int|
        0 <= k < index && (#[trigger] checks[k]).reached() is Some ==> checks[index].beats(
            checks[k],
        )
}

/// The selected probe is of the best class.
pub proof fn selected_is_of_best_class(checks: Seq<Probe>, index: int)
    requires
        is_selected(checks, index),
    ensures
        best_class(checks) == checks[index].reached(),
{
    let chosen = checks[index].reached()->0;
    assert(connectable(checks, chosen));
    assert forall|class: TransportType| #[trigger]
        connectable(checks, class) implies class.spec_priority() <= chosen.spec_priority() by {
        let k = choose|k: int| 0 <= k < checks.len() && #[trigger] checks[k].reached() == Some(class);
        assert(!checks[k].beats(checks[index]));
    }
}

/// Without a passed probe there is no best class, and conversely.
pub proof fn no_class_without_passed_probe(checks: Seq<Probe>)
    ensures
        best_class(checks) is None <==> (forall|k: int|
            0 <= k < checks.len() ==> (#[trigger] checks[k]).reached() is None),
{
    if best_class(checks) is None {
        assert forall|k: int| 0 <= k < checks.len() implies (#[trigger] checks[k]).reached() is None by {
            if checks[k].reached() is Some {
                assert(connectable(checks, checks[k].reached()->0));
            }
        }
    }
}

/// No class above the best class is connectable.
pub proof fn no_better_class_is_connectable(checks: Seq<Probe>)
    ensures
        best_class(checks) matches Some(best) ==> connectable(checks, best) && forall|
            class: TransportType,
        | #[trigger]
            connectable(checks, class) ==> class.spec_priority() <= best.spec_priority(),
{
}

/// The class that an upgrade from `current` moves to: the best class, if
/// it is more preferred than `current`.
pub open spec fn upgrade_target(current: TransportType, checks: Seq<Probe>) -> Option<
    TransportType,
> {
    match best_class(checks) {
        Some(class) if class.spec_priority() > current.spec_priority() => Some(class),
        _ => None,
    }
}

/// Scans the probes once and returns the index of the one to use together
/// with its class.
fn best_probe(checks: &Vec<ConnectivityCheck>) -> (found: Option<(usize, TransportType)>)
    ensures
        match found {
            Some((index, class)) => {
                &&& is_selected(probes(checks@), index as int)
                &&& probes(checks@)[index as int].reached() == Some(class)
            },
            None => forall|k: int|
                0 <= k < checks@.len() ==> (#[trigger] probes(checks@)[k]).reached() is None,
        },
{
    let ghost views = probes(checks@);
    let mut found: Option<(usize, TransportType)> = None;
    let mut best_rtt: u32 = 0;
    let mut i: usize = 0;
    while i < checks.len()
        invariant
            i <= checks@.len(),
            views == probes(checks@),
            match found {
                Some((index, class)) => {
                    &&& index < i
                    &&& views[index as int].reached() == Some(class)
                    &&& best_rtt == views[index as int].rtt_ms
                    &&& forall|k: int| 0 <= k < i ==> !(#[trigger] views[k]).beats(views[index as int])
                    &&& forall|k: int|
                        0 <= k < index && (#[trigger] views[k]).reached() is Some
                            ==> views[index as int].beats(views[k])
                },
                None => forall|k: int| 0 <= k < i ==> (#[trigger] views[k]).reached() is None,
            },
        decreases checks@.len() - i,
    {
        let check = &checks[i];
        assert(views[i as int] == check@);
        if check.reachable {
            if let Some(class) = check.candidate.transport_class() {
                let better = match found {
                    Some((_, best)) => class.priority() > best.priority() || (class == best
                        && check.rtt_ms < best_rtt),
                    None => true,
                };
                if better {
                    found = Some((i, class));
                    best_rtt = check.rtt_ms;
                }
            }
        }
        i += 1;
    }
    found
}

/// The probe to use among `checks`: of the passed probes, the one of the
/// most preferred class; within that class, the one with the shortest
/// round trip; among equals, the first. `None` if no probe passed.
pub fn select_path(checks: &Vec<ConnectivityCheck>) -> (selected: Option<usize>)
    ensures
        match selected {
            Some(index) => is_selected(probes(checks@), index as int),
            None => forall|k: int|
                0 <= k < checks@.len() ==> (#[trigger] probes(checks@)[k]).reached() is None,
        },
{
    match best_probe(checks) {
        Some((index, _)) => Some(index),
        None => None,
    }
}

/// Traffic counters and the active transport class.
#[derive(Debug)]
pub struct TransportStats {
    /// Name of the active transport class.
    pub transport_type: String,
    /// Local address and port.
    pub local_address: String,
    /// Remote address and port.
    pub remote_address: String,
    /// Bytes sent.
    pub bytes_sent: u64,
    /// Bytes received.
    pub bytes_received: u64,
    /// Round-trip latency in milliseconds.
    pub latency_ms: u32,
}

/// Mathematical model of [`TransportStats`].
pub ghost struct StatsView {
    pub transport_type: Seq<char>,
    pub local_address: Seq<char>,
    pub remote_address: Seq<char>,
    pub bytes_sent: u64,
    pub bytes_received: u64,
    pub latency_ms: u32,
}

impl View for TransportStats {
    type V = StatsView;

    open spec fn view(&self) -> StatsView {
        StatsView {
            transport_type: self.transport_type@,
            local_address: self.local_address@,
            remote_address: self.remote_address@,
            bytes_sent: self.bytes_sent,
            bytes_received: self.bytes_received,
            latency_ms: self.latency_ms,
        }
    }
}

/// The texts of a sequence of strings, in the same order.
pub open spec fn texts(strings: Seq<String>) -> Seq<Seq<char>> {
    strings.map_values(|s: String| s@)
}

/// Negotiates and keeps the transport path of one session.
pub struct TransportManager {
    stun_servers: Vec<String>,
    turn_servers: Vec<String>,
    current_transport: TransportType,
    local_candidates: Vec<IceCandidate>,
    remote_candidates: Vec<IceCandidate>,
}

/// Mathematical model of a [`TransportManager`].
pub ghost struct TransportState {
    /// STUN servers, fixed at construction.
    pub stun_servers: Seq<Seq<char>>,
    /// TURN servers, fixed at construction.
    pub turn_servers: Seq<Seq<char>>,
    /// The class selected last, or `Direct` before any selection.
    pub current_transport: TransportType,
    /// What the last gathering produced, in gathering order.
    pub local_candidates: Seq<Candidate>,
    /// Candidates received from the peer, in order of arrival.
    pub remote_candidates: Seq<Candidate>,
}

impl View for TransportManager {
    type V = TransportState;

    closed spec fn view(&self) -> TransportState {
        TransportState {
            stun_servers: texts(self.stun_servers@),
            turn_servers: texts(self.turn_servers@),
            current_transport: self.current_transport,
            local_candidates: candidate_views(self.local_candidates@),
            remote_candidates: candidate_views(self.remote_candidates@),
        }
    }
}

impl TransportManager {
    /// A negotiator for the given servers. Until a path is selected the
    /// transport class reads `Direct`; no candidates are known yet.
    pub fn new(stun_servers: Vec<String>, turn_servers: Vec<String>) -> (manager: Self)
        ensures
            manager@ == (TransportState {
                stun_servers: texts(stun_servers@),
                turn_servers: texts(turn_servers@),
                current_transport: TransportType::Direct,
                local_candidates: Seq::empty(),
                remote_candidates: Seq::empty(),
            }),
    {
        let manager = TransportManager {
            stun_servers,
            turn_servers,
            current_transport: TransportType::Direct,
            local_candidates: Vec::new(),
            remote_candidates: Vec::new(),
        };
        assert(manager@.local_candidates =~= Seq::empty());
        assert(manager@.remote_candidates =~= Seq::empty());
        manager
    }

    /// The transport class in use.
    pub fn get_transport_type(&self) -> (class: TransportType)
        ensures
            class == self@.current_transport,
    {
        self.current_transport
    }

    /// The candidates of the last gathering, in gathering order.
    pub fn local_candidates(&self) -> (candidates: Vec<IceCandidate>)
        ensures
            candidate_views(candidates@) == self@.local_candidates,
    {
        let candidates = self.local_candidates.clone();
        assert(candidates@ =~= self.local_candidates@);
        candidates
    }

    /// The candidates received from the peer so far, in order of arrival.
    pub fn remote_candidates(&self) -> (candidates: Vec<IceCandidate>)
        ensures
            candidate_views(candidates@) == self@.remote_candidates,
    {
        let candidates = self.remote_candidates.clone();
        assert(candidates@ =~= self.remote_candidates@);
        candidates
    }

    /// Produces the local candidates and remembers them, replacing those of
    /// an earlier gathering. The result is never empty: the host candidate
    /// comes first and the TCP fallback last, whatever servers are
    /// configured.
    pub fn gather_candidates(&mut self) -> (candidates: Vec<IceCandidate>)
        ensures
            candidate_views(candidates@) == gathered(
                old(self)@.stun_servers.len(),
                old(self)@.turn_servers.len(),
            ),
            final(self)@ == (TransportState {
                local_candidates: candidate_views(candidates@),
                ..old(self)@
            }),
    {
        let stun: usize = self.stun_servers.len();
        let turn: usize = self.turn_servers.len();
        let ghost target = gathered(stun as nat, turn as nat);
        let mut candidates: Vec<IceCandidate> = Vec::new();
        candidates.push(IceCandidate::placeholder(TransportType::Direct));
        let mut i: usize = 0;
        while i < stun
            invariant
                i <= stun,
                target == gathered(stun as nat, turn as nat),
                candidates@.len() == 1 + i,
                forall|k: int| 0 <= k < candidates@.len() ==> candidates@[k]@ == target[k],
            decreases stun - i,
        {
            candidates.push(IceCandidate::placeholder(TransportType::StunAssisted));
            i += 1;
        }
        let mut j: usize = 0;
        while j < turn
            invariant
                j <= turn,
                target == gathered(stun as nat, turn as nat),
                candidates@.len() == 1 + stun + j,
                forall|k: int| 0 <= k < candidates@.len() ==> candidates@[k]@ == target[k],
            decreases turn - j,
        {
            candidates.push(IceCandidate::placeholder(TransportType::TurnRelay));
            j += 1;
        }
        candidates.push(IceCandidate::placeholder(TransportType::TcpFallback));
        assert(candidate_views(candidates@) =~= target);
        self.local_candidates = candidates.clone();
        assert(self.local_candidates@ =~= candidates@);
        candidates
    }

    /// Takes a candidate that the peer sent into the pool of candidates to
    /// probe. Nothing else changes; the call never waits.
    pub fn add_remote_candidate(&mut self, candidate: IceCandidate)
        ensures
            final(self)@ == (TransportState {
                remote_candidates: old(self)@.remote_candidates.push(candidate@),
                ..old(self)@
            }),
    {
        self.remote_candidates.push(candidate);
        assert(candidate_views(self.remote_candidates@) =~= candidate_views(
            old(self).remote_candidates@,
        ).push(candidate@));
    }

    /// Commits to a transport class from the outcome of the probes: the
    /// most preferred class that some probe showed connectable. If no probe
    /// passed, negotiation has failed and the transport class stays as it
    /// was.
    pub fn start_connectivity_checks(&mut self, checks: &Vec<ConnectivityCheck>) -> (outcome:
        Result<TransportType, ElaraError>)
        ensures
            outcome == match best_class(probes(checks@)) {
                Some(class) => Ok::<TransportType, ElaraError>(class),
                None => Err(ElaraError::NegotiationFailed),
            },
            final(self)@ == (TransportState {
                current_transport: match best_class(probes(checks@)) {
                    Some(class) => class,
                    None => old(self)@.current_transport,
                },
                ..old(self)@
            }),
            outcome matches Ok(class) ==> forall|other: TransportType| #[trigger]
                connectable(probes(checks@), other) ==> other.spec_priority()
                    <= class.spec_priority(),
    {
        proof {
            no_class_without_passed_probe(probes(checks@));
            no_better_class_is_connectable(probes(checks@));
        }
        match best_probe(checks) {
            Some((index, class)) => {
                proof {
                    selected_is_of_best_class(probes(checks@), index as int);
                }
                self.current_transport = class;
                Ok(class)
            },
            None => Err(ElaraError::NegotiationFailed),
        }
    }

    /// The active transport class by name. Addresses and counters are not
    /// measured here and read as zero.
    pub fn get_stats(&self) -> (stats: TransportStats)
        ensures
            stats@ == (StatsView {
                transport_type: self@.current_transport.spec_name(),
                local_address: "0.0.0.0:0"@,
                remote_address: "0.0.0.0:0"@,
                bytes_sent: 0,
                bytes_received: 0,
                latency_ms: 0,
            }),
    {
        TransportStats {
            transport_type: self.current_transport.name(),
            local_address: String::from_str("0.0.0.0:0"),
            remote_address: String::from_str("0.0.0.0:0"),
            bytes_sent: 0,
            bytes_received: 0,
            latency_ms: 0,
        }
    }

    /// Moves to a more preferred transport class if the probes showed one
    /// connectable, and says whether it moved. Otherwise nothing changes:
    /// the transport class never becomes less preferred, and from `Direct`
    /// there is nowhere to move.
    pub fn try_upgrade(&mut self, checks: &Vec<ConnectivityCheck>) -> (upgraded: bool)
        ensures
            upgraded == upgrade_target(old(self)@.current_transport, probes(checks@)).is_some(),
            final(self)@ == (TransportState {
                current_transport: match upgrade_target(
                    old(self)@.current_transport,
                    probes(checks@),
                ) {
                    Some(class) => class,
                    None => old(self)@.current_transport,
                },
                ..old(self)@
            }),
            final(self)@.current_transport.spec_priority() >= old(
                self,
            )@.current_transport.spec_priority(),
            old(self)@.current_transport == TransportType::Direct ==> !upgraded,
    {
        proof {
            no_class_without_passed_probe(probes(checks@));
        }
        match best_probe(checks) {
            Some((index, class)) => {
                proof {
                    selected_is_of_best_class(probes(checks@), index as int);
                }
                if class.priority() > self.current_transport.priority() {
                    self.current_transport = class;
                    true
                } else {
                    false
                }
            },
            None => false,
        }
    }
}

} // verus!
