//! The node: entry point of the runtime and registry of its sessions.
//!
//! A node owns its sessions and no two of them share an identifier. What
//! the node hands out are snapshots: the session itself stays in the
//! registry, where it is driven by its identifier, until it is closed.

use crate::clock::unix_time;
use crate::connection::ConnectionStatus;
use crate::error::ElaraError;
use crate::session::{ElaraSession, SessionState, SessionStatus};
use crate::transport::{texts, TransportType};
use vstd::prelude::*;
use vstd::string::StringExecFns;

verus! {

/// Settings of a node.
#[derive(Debug)]
pub struct ElaraConfig {
    /// STUN servers for address discovery.
    pub stun_servers: Vec<String>,
    /// TURN servers for relaying.
    pub turn_servers: Vec<String>,
    /// Whether video is enabled.
    pub video_enabled: bool,
    /// Whether audio is enabled.
    pub audio_enabled: bool,
    /// Ceiling of the video bitrate in kbps.
    pub max_video_bitrate: u32,
    /// Ceiling of the audio bitrate in kbps.
    pub max_audio_bitrate: u32,
}

/// Mathematical model of an [`ElaraConfig`].
pub ghost struct Settings {
    pub stun_servers: Seq<Seq<char>>,
    pub turn_servers: Seq<Seq<char>>,
    pub video_enabled: bool,
    pub audio_enabled: bool,
    pub max_video_bitrate: u32,
    pub max_audio_bitrate: u32,
}

impl View for ElaraConfig {
    type V = Settings;

    open spec fn view(&self) -> Settings {
        Settings {
            stun_servers: texts(self.stun_servers@),
            turn_servers: texts(self.turn_servers@),
            video_enabled: self.video_enabled,
            audio_enabled: self.audio_enabled,
            max_video_bitrate: self.max_video_bitrate,
            max_audio_bitrate: self.max_audio_bitrate,
        }
    }
}

/// The settings used when none are given: one public STUN server, no TURN
/// server, video and audio enabled, at most 2500 kbps of video and 128 kbps
/// of audio.
pub open spec fn default_settings() -> Settings {
    Settings {
        stun_servers: seq!["stun:stun.l.google.com:19302"@],
        turn_servers: Seq::empty(),
        video_enabled: true,
        audio_enabled: true,
        max_video_bitrate: 2500,
        max_audio_bitrate: 128,
    }
}

impl Default for ElaraConfig {
    fn default() -> (config: Self)
        ensures
            config@ == default_settings(),
    {
        let mut stun_servers: Vec<String> = Vec::new();
        stun_servers.push(String::from_str("stun:stun.l.google.com:19302"));
        let config = ElaraConfig {
            stun_servers,
            turn_servers: Vec::new(),
            video_enabled: true,
            audio_enabled: true,
            max_video_bitrate: 2500,
            max_audio_bitrate: 128,
        };
        assert(config@.stun_servers =~= default_settings().stun_servers);
        assert(config@.turn_servers =~= default_settings().turn_servers);
        config
    }
}

impl Clone for ElaraConfig {
    fn clone(&self) -> (copy: Self)
        ensures
            copy@ == self@,
    {
        let copy = ElaraConfig {
            stun_servers: self.stun_servers.clone(),
            turn_servers: self.turn_servers.clone(),
            video_enabled: self.video_enabled,
            audio_enabled: self.audio_enabled,
            max_video_bitrate: self.max_video_bitrate,
            max_audio_bitrate: self.max_audio_bitrate,
        };
        assert(copy.stun_servers@ =~= self.stun_servers@);
        assert(copy.turn_servers@ =~= self.turn_servers@);
        copy
    }
}

/// The models of a sequence of sessions, in the same order.
pub open spec fn session_views(sessions: Seq<ElaraSession>) -> Seq<SessionState> {
    sessions.map_values(|s: ElaraSession| s@)
}

/// Whether no two sessions share an identifier.
pub open spec fn distinct_ids(sessions: Seq<SessionState>) -> bool {
    forall|i: int, j: int|
        0 <= i < j < sessions.len() ==> (#[trigger] sessions[i]).session_id
            != (#[trigger] sessions[j]).session_id
}

/// Whether `c` is a digit or a letter from `a` to `f`.
pub open spec fn is_lower_hex(c: char) -> bool {
    ('0' <= c && c <= '9') || ('a' <= c && c <= 'f')
}

/// Whether `text` is a random (version 4) UUID in its hyphenated lower-case
/// form, as in `67e55044-10b1-426f-9247-bb680e5fe0c8`: 36 characters,
/// hyphens after the 8th, 12th, 16th and 20th digit, the 13th digit `4` and
/// the 17th one of `8`, `9`, `a`, `b`.
pub open spec fn is_uuid_v4(text: Seq<char>) -> bool {
    &&& text.len() == 36
    &&& forall|i: int|
        0 <= i < 36 ==> if i == 8 || i == 13 || i == 18 || i == 23 {
            #[trigger] text[i] == '-'
        } else {
            is_lower_hex(text[i])
        }
    &&& text[14] == '4'
    &&& (text[19] == '8' || text[19] == '9' || text[19] == 'a' || text[19] == 'b')
}

/// Draws an identifier with `uuid::Uuid::new_v4` and writes it as `Display`
/// for `Uuid` does. The value is random; the contract states the form that
/// every value has. `new_v4` panics where the operating system cannot
/// supply random bytes.
#[verifier::external_body]
fn random_uuid() -> (text: String)
    ensures
        is_uuid_v4(text@),
{
    uuid::Uuid::new_v4().to_string()
}

/// The process-wide entry point: identity, settings, the live sessions and
/// the overall connection status.
pub struct ElaraNode {
    node_id: String,
    config: ElaraConfig,
    sessions: Vec<ElaraSession>,
    status: ConnectionStatus,
}

/// Mathematical model of an [`ElaraNode`].
pub ghost struct NodeState {
    pub node_id: Seq<char>,
    pub config: Settings,
    /// The live sessions in order of creation; their identifiers differ.
    pub sessions: Seq<SessionState>,
    pub status: ConnectionStatus,
}

impl NodeState {
    /// The node with `session` registered last.
    pub open spec fn with_session(self, session: SessionState) -> NodeState {
        NodeState { sessions: self.sessions.push(session), ..self }
    }

    /// The node without the session at `index`.
    pub open spec fn without_session(self, index: int) -> NodeState {
        NodeState { sessions: self.sessions.remove(index), ..self }
    }

    /// The node with the session at `index` replaced by `session`.
    pub open spec fn with_session_at(self, index: int, session: SessionState) -> NodeState {
        NodeState { sessions: self.sessions.update(index, session), ..self }
    }

    /// The node after shutdown: no sessions, disconnected.
    pub open spec fn shut_down(self) -> NodeState {
        NodeState { sessions: Seq::empty(), status: ConnectionStatus::Disconnected, ..self }
    }

    /// Where the session called `session_id` stands among the live
    /// sessions, if it is one of them.
    pub open spec fn position(self, session_id: Seq<char>) -> Option<int> {
        if exists|i: int|
            0 <= i < self.sessions.len() && (#[trigger] self.sessions[i]).session_id
                == session_id {
            Some(
                choose|i: int|
                    0 <= i < self.sessions.len() && (#[trigger] self.sessions[i]).session_id
                        == session_id,
            )
        } else {
            None
        }
    }

    /// The live session called `session_id`, if there is one.
    pub open spec fn session(self, session_id: Seq<char>) -> Option<SessionState> {
        match self.position(session_id) {
            Some(i) => Some(self.sessions[i]),
            None => None,
        }
    }
}

impl View for ElaraNode {
    type V = NodeState;

    closed spec fn view(&self) -> NodeState {
        NodeState {
            node_id: self.node_id@,
            config: self.config@,
            sessions: session_views(self.sessions@),
            status: self.status,
        }
    }
}

impl ElaraNode {
    #[verifier::type_invariant]
    spec fn unique_sessions(self) -> bool {
        distinct_ids(session_views(self.sessions@))
    }

    /// A node with a fresh random identifier and the given settings, or the
    /// default settings where none are given. It starts disconnected and
    /// without sessions.
    pub fn new(config: Option<ElaraConfig>) -> (node: Self)
        ensures
            is_uuid_v4(node@.node_id),
            node@ == (NodeState {
                node_id: node@.node_id,
                config: match config {
                    Some(settings) => settings@,
                    None => default_settings(),
                },
                sessions: Seq::empty(),
                status: ConnectionStatus::Disconnected,
            }),
    {
        Self::with_node_id(random_uuid(), config)
    }

    /// A node called `node_id` with the given settings, or the default
    /// settings where none are given. It starts disconnected and without
    /// sessions.
    pub fn with_node_id(node_id: String, config: Option<ElaraConfig>) -> (node: Self)
        ensures
            node@ == (NodeState {
                node_id: node_id@,
                config: match config {
                    Some(settings) => settings@,
                    None => default_settings(),
                },
                sessions: Seq::empty(),
                status: ConnectionStatus::Disconnected,
            }),
    {
        let config = match config {
            Some(settings) => settings,
            None => ElaraConfig::default(),
        };
        let sessions: Vec<ElaraSession> = Vec::new();
        assert(session_views(sessions@) =~= Seq::empty());
        ElaraNode { node_id, config, sessions, status: ConnectionStatus::Disconnected }
    }

    /// Identifier of the node.
    pub fn node_id(&self) -> (id: String)
        ensures
            id@ == self@.node_id,
    {
        self.node_id.clone()
    }

    /// The settings of the node.
    pub fn config(&self) -> (config: ElaraConfig)
        ensures
            config@ == self@.config,
    {
        self.config.clone()
    }

    /// The overall connection status.
    pub fn get_status(&self) -> (status: ConnectionStatus)
        ensures
            status == self@.status,
    {
        self.status
    }

    /// Brings the node up: it is connected afterwards. Sessions are not
    /// touched.
    pub fn initialize(&mut self)
        ensures
            final(self)@ == (NodeState { status: ConnectionStatus::Connected, ..old(self)@ }),
    {
        proof {
            use_type_invariant(&*self);
        }
        self.status = ConnectionStatus::Connected;
    }

    /// Where the session called `session_id` stands in the registry.
    fn find(&self, session_id: &String) -> (found: Option<usize>)
        ensures
            distinct_ids(self@.sessions),
            self@.position(session_id@) == match found {
                Some(i) => Some(i as int),
                None => None,
            },
            found matches Some(i) ==> i < self.sessions@.len(),
    {
        proof {
            use_type_invariant(self);
        }
        let ghost views = session_views(self.sessions@);
        let mut i: usize = 0;
        while i < self.sessions.len()
            invariant
                i <= self.sessions@.len(),
                views == session_views(self.sessions@),
                views == self@.sessions,
                distinct_ids(views),
                forall|k: int| 0 <= k < i ==> (#[trigger] views[k]).session_id != session_id@,
            decreases self.sessions@.len() - i,
        {
            if self.sessions[i].has_session_id(session_id) {
                assert(views[i as int].session_id == session_id@);
                return Some(i);
            }
            i += 1;
        }
        None
    }

    /// Registers a session with the remote peer `peer_id`, created now by
    /// the system clock, and returns a snapshot of it. An identifier that
    /// is already in use is refused and the registry stays as it was.
    pub fn create_session(&mut self, session_id: String, peer_id: String) -> (outcome: Result<
        ElaraSession,
        ElaraError,
    >)
        ensures
            match outcome {
                Ok(session) => {
                    &&& old(self)@.position(session_id@) is None
                    &&& exists|start_time: u64|
                        session@ == #[trigger] SessionState::created(
                            session_id@,
                            old(self)@.node_id,
                            peer_id@,
                            start_time,
                        )
                    &&& final(self)@ == old(self)@.with_session(session@)
                },
                Err(error) => {
                    &&& error == ElaraError::DuplicateSession
                    &&& old(self)@.position(session_id@) is Some
                    &&& final(self)@ == old(self)@
                },
            },
            distinct_ids(final(self)@.sessions),
    {
        self.create_session_at(session_id, peer_id, unix_time())
    }

    /// Registers a session with the remote peer `peer_id`, created at
    /// `start_time`, and returns a snapshot of it. The local peer of the
    /// session is this node. An identifier that is already in use is
    /// refused and the registry stays as it was.
    pub fn create_session_at(&mut self, session_id: String, peer_id: String, start_time: u64) -> (outcome:
        Result<ElaraSession, ElaraError>)
        ensures
            match outcome {
                Ok(session) => {
                    &&& old(self)@.position(session_id@) is None
                    &&& session@ == SessionState::created(
                        session_id@,
                        old(self)@.node_id,
                        peer_id@,
                        start_time,
                    )
                    &&& final(self)@ == old(self)@.with_session(session@)
                },
                Err(error) => {
                    &&& error == ElaraError::DuplicateSession
                    &&& old(self)@.position(session_id@) is Some
                    &&& final(self)@ == old(self)@
                },
            },
            distinct_ids(final(self)@.sessions),
    {
        match self.find(&session_id) {
            Some(_) => Err(ElaraError::DuplicateSession),
            None => {
                let session = ElaraSession::started_at(
                    session_id,
                    self.node_id.clone(),
                    peer_id,
                    start_time,
                );
                let snapshot = session.clone();
                let ghost before = session_views(self.sessions@);
                let mut sessions: Vec<ElaraSession> = Vec::new();
                assert(session_views(sessions@) =~= Seq::empty());
                std::mem::swap(&mut self.sessions, &mut sessions);
                sessions.push(session);
                assert(session_views(sessions@) =~= before.push(snapshot@));
                std::mem::swap(&mut self.sessions, &mut sessions);
                Ok(snapshot)
            },
        }
    }

    /// A snapshot of the session called `session_id`, if it is registered.
    pub fn get_session(&self, session_id: String) -> (found: Option<ElaraSession>)
        ensures
            match found {
                Some(session) => self@.session(session_id@) == Some(session@),
                None => self@.session(session_id@) is None,
            },
    {
        match self.find(&session_id) {
            Some(i) => {
                assert(session_views(self.sessions@)[i as int] == self.sessions@[i as int]@);
                Some(self.sessions[i].clone())
            },
            None => None,
        }
    }

    /// Hands the outcome of transport negotiation to the registered session
    /// called `session_id`, as [`ElaraSession::connect`] does. A session
    /// that is not registered cannot be connected.
    pub fn connect_session(&mut self, session_id: String, selected: Option<TransportType>) -> (answer:
        Result<(), ElaraError>)
        ensures
            match old(self)@.position(session_id@) {
                Some(i) => {
                    &&& answer == old(self)@.sessions[i].connect_answer(selected)
                    &&& final(self)@ == old(self)@.with_session_at(
                        i,
                        old(self)@.sessions[i].connected(selected),
                    )
                },
                None => answer == Err::<(), ElaraError>(ElaraError::InvalidState) && final(self)@
                    == old(self)@,
            },
            distinct_ids(final(self)@.sessions),
    {
        match self.find(&session_id) {
            Some(i) => {
                let ghost before = session_views(self.sessions@);
                let mut sessions: Vec<ElaraSession> = Vec::new();
                assert(session_views(sessions@) =~= Seq::empty());
                std::mem::swap(&mut self.sessions, &mut sessions);
                let answer = sessions[i].connect(selected);
                assert(session_views(sessions@) =~= before.update(
                    i as int,
                    before[i as int].connected(selected),
                ));
                std::mem::swap(&mut self.sessions, &mut sessions);
                answer
            },
            None => Err(ElaraError::InvalidState),
        }
    }

    /// Puts the registered session called `session_id` on hold, as
    /// [`ElaraSession::pause`] does, and says whether it did. An unknown
    /// identifier changes nothing.
    pub fn pause_session(&mut self, session_id: String) -> (paused: bool)
        ensures
            match old(self)@.position(session_id@) {
                Some(i) => {
                    &&& paused == (old(self)@.sessions[i].status == SessionStatus::Active)
                    &&& final(self)@ == old(self)@.with_session_at(
                        i,
                        old(self)@.sessions[i].paused(),
                    )
                },
                None => !paused && final(self)@ == old(self)@,
            },
            distinct_ids(final(self)@.sessions),
    {
        match self.find(&session_id) {
            Some(i) => {
                let ghost before = session_views(self.sessions@);
                let mut sessions: Vec<ElaraSession> = Vec::new();
                assert(session_views(sessions@) =~= Seq::empty());
                std::mem::swap(&mut self.sessions, &mut sessions);
                let paused = sessions[i].pause();
                assert(session_views(sessions@) =~= before.update(
                    i as int,
                    before[i as int].paused(),
                ));
                std::mem::swap(&mut self.sessions, &mut sessions);
                paused
            },
            None => false,
        }
    }

    /// Takes the registered session called `session_id` off hold, as
    /// [`ElaraSession::resume`] does, and says whether it did. An unknown
    /// identifier changes nothing.
    pub fn resume_session(&mut self, session_id: String) -> (resumed: bool)
        ensures
            match old(self)@.position(session_id@) {
                Some(i) => {
                    &&& resumed == (old(self)@.sessions[i].status == SessionStatus::Paused)
                    &&& final(self)@ == old(self)@.with_session_at(
                        i,
                        old(self)@.sessions[i].resumed(),
                    )
                },
                None => !resumed && final(self)@ == old(self)@,
            },
            distinct_ids(final(self)@.sessions),
    {
        match self.find(&session_id) {
            Some(i) => {
                let ghost before = session_views(self.sessions@);
                let mut sessions: Vec<ElaraSession> = Vec::new();
                assert(session_views(sessions@) =~= Seq::empty());
                std::mem::swap(&mut self.sessions, &mut sessions);
                let resumed = sessions[i].resume();
                assert(session_views(sessions@) =~= before.update(
                    i as int,
                    before[i as int].resumed(),
                ));
                std::mem::swap(&mut self.sessions, &mut sessions);
                resumed
            },
            None => false,
        }
    }

    /// Flips the video flag of the registered session called `session_id`
    /// and returns its new value; `None` for an unknown identifier, which
    /// changes nothing.
    pub fn toggle_session_video(&mut self, session_id: String) -> (enabled: Option<bool>)
        ensures
            match old(self)@.position(session_id@) {
                Some(i) => {
                    &&& enabled == Some(!old(self)@.sessions[i].video_enabled)
                    &&& final(self)@ == old(self)@.with_session_at(
                        i,
                        old(self)@.sessions[i].video_toggled(),
                    )
                },
                None => enabled is None && final(self)@ == old(self)@,
            },
            distinct_ids(final(self)@.sessions),
    {
        match self.find(&session_id) {
            Some(i) => {
                let ghost before = session_views(self.sessions@);
                let mut sessions: Vec<ElaraSession> = Vec::new();
                assert(session_views(sessions@) =~= Seq::empty());
                std::mem::swap(&mut self.sessions, &mut sessions);
                let enabled = sessions[i].toggle_video();
                assert(session_views(sessions@) =~= before.update(
                    i as int,
                    before[i as int].video_toggled(),
                ));
                std::mem::swap(&mut self.sessions, &mut sessions);
                Some(enabled)
            },
            None => None,
        }
    }

    /// Flips the audio flag of the registered session called `session_id`
    /// and returns its new value; `None` for an unknown identifier, which
    /// changes nothing.
    pub fn toggle_session_audio(&mut self, session_id: String) -> (enabled: Option<bool>)
        ensures
            match old(self)@.position(session_id@) {
                Some(i) => {
                    &&& enabled == Some(!old(self)@.sessions[i].audio_enabled)
                    &&& final(self)@ == old(self)@.with_session_at(
                        i,
                        old(self)@.sessions[i].audio_toggled(),
                    )
                },
                None => enabled is None && final(self)@ == old(self)@,
            },
            distinct_ids(final(self)@.sessions),
    {
        match self.find(&session_id) {
            Some(i) => {
                let ghost before = session_views(self.sessions@);
                let mut sessions: Vec<ElaraSession> = Vec::new();
                assert(session_views(sessions@) =~= Seq::empty());
                std::mem::swap(&mut self.sessions, &mut sessions);
                let enabled = sessions[i].toggle_audio();
                assert(session_views(sessions@) =~= before.update(
                    i as int,
                    before[i as int].audio_toggled(),
                ));
                std::mem::swap(&mut self.sessions, &mut sessions);
                Some(enabled)
            },
            None => None,
        }
    }

    /// Removes the session called `session_id` from the registry, closes it
    /// and returns it, so that the caller can release what the session
    /// held and tell the peer. An unknown identifier changes nothing.
    pub fn close_session(&mut self, session_id: String) -> (closed: Option<ElaraSession>)
        ensures
            match old(self)@.position(session_id@) {
                Some(i) => {
                    &&& closed matches Some(session)
                    &&& session@ == old(self)@.sessions[i].closed()
                    &&& final(self)@ == old(self)@.without_session(i)
                },
                None => closed is None && final(self)@ == old(self)@,
            },
            distinct_ids(final(self)@.sessions),
    {
        match self.find(&session_id) {
            Some(i) => {
                let ghost before = session_views(self.sessions@);
                let mut sessions: Vec<ElaraSession> = Vec::new();
                assert(session_views(sessions@) =~= Seq::empty());
                std::mem::swap(&mut self.sessions, &mut sessions);
                let mut session = sessions.remove(i);
                assert(before[i as int] == session@);
                assert(session_views(sessions@) =~= before.remove(i as int));
                std::mem::swap(&mut self.sessions, &mut sessions);
                session.close();
                Some(session)
            },
            None => None,
        }
    }

    /// Closes every registered session, empties the registry and leaves the
    /// node disconnected. The closed sessions are returned in order of
    /// creation, so that the caller can release what each held and tell its
    /// peer. Closing a session cannot fail, so no session is left out.
    pub fn shutdown(&mut self) -> (closed: Vec<ElaraSession>)
        ensures
            session_views(closed@) == old(self)@.sessions.map_values(
                |s: SessionState| s.closed(),
            ),
            final(self)@ == old(self)@.shut_down(),
    {
        let ghost before = session_views(self.sessions@);
        let mut closed: Vec<ElaraSession> = Vec::new();
        assert(session_views(closed@) =~= Seq::empty());
        std::mem::swap(&mut self.sessions, &mut closed);
        self.status = ConnectionStatus::Disconnected;
        let mut i: usize = 0;
        while i < closed.len()
            invariant
                i <= closed@.len(),
                closed@.len() == before.len(),
                forall|k: int| 0 <= k < i ==> (#[trigger] closed@[k])@ == before[k].closed(),
                forall|k: int| i <= k < closed@.len() ==> (#[trigger] closed@[k])@ == before[k],
            decreases closed@.len() - i,
        {
            closed[i].close();
            i += 1;
        }
        assert(session_views(closed@) =~= before.map_values(|s: SessionState| s.closed()));
        closed
    }
}

} // verus!
