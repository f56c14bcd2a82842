//! One call between two peers and its state machine.
//!
//! A session starts in `Waiting`, becomes `Active` once a transport path is
//! selected, moves between `Active` and `Paused`, and ends in `Ended` from
//! any state. Nothing leaves `Ended`.

use crate::clock::unix_time;
use crate::connection::ConnectionQuality;
use crate::error::ElaraError;
use crate::transport::TransportType;
use vstd::prelude::*;

verus! {

/// The states of a session.
#[derive(Debug, Clone, Copy, PartialEq, Eq, Structural)]
pub enum SessionStatus {
    /// Created, not yet connecting.
    Waiting,
    /// Negotiating a transport path.
    Connecting,
    /// Connected, media flowing.
    Active,
    /// Connected, media on hold.
    Paused,
    /// Closed for good.
    Ended,
}

/// What a session reports to its owner.
#[derive(Debug, Clone, Copy, PartialEq, Eq, Structural)]
pub enum SessionEvent {
    /// The peer connected.
    PeerConnected,
    /// The peer disconnected.
    PeerDisconnected,
    /// The video stream started.
    VideoStarted,
    /// The video stream stopped.
    VideoStopped,
    /// The audio stream started.
    AudioStarted,
    /// The audio stream stopped.
    AudioStopped,
    /// The quality tier changed.
    QualityChanged,
    /// A data message arrived.
    MessageReceived,
}

/// A call between the local peer and one remote peer.
pub struct ElaraSession {
    session_id: String,
    local_peer_id: String,
    remote_peer_id: String,
    status: SessionStatus,
    quality: ConnectionQuality,
    video_enabled: bool,
    audio_enabled: bool,
    start_time: u64,
}

/// Mathematical model of an [`ElaraSession`].
pub ghost struct SessionState {
    /// Identifier of the session; never changes.
    pub session_id: Seq<char>,
    /// Identifier of the local peer; never changes.
    pub local_peer_id: Seq<char>,
    /// Identifier of the remote peer; never changes.
    pub remote_peer_id: Seq<char>,
    pub status: SessionStatus,
    pub quality: ConnectionQuality,
    pub video_enabled: bool,
    pub audio_enabled: bool,
    /// Creation time in seconds since the Unix epoch.
    pub start_time: u64,
}

impl SessionState {
    /// A session as it is created at `start_time`: waiting, unmeasured,
    /// video and audio enabled.
    pub open spec fn created(
        session_id: Seq<char>,
        local_peer_id: Seq<char>,
        remote_peer_id: Seq<char>,
        start_time: u64,
    ) -> SessionState {
        SessionState {
            session_id,
            local_peer_id,
            remote_peer_id,
            status: SessionStatus::Waiting,
            quality: ConnectionQuality::spec_unmeasured(),
            video_enabled: true,
            audio_enabled: true,
            start_time,
        }
    }

    /// What a connect request answers when negotiation selected `selected`.
    /// An ended session refuses. A session that is connecting or active has
    /// nothing to do. From `Waiting` or `Paused` the request succeeds if and
    /// only if a transport was selected.
    pub open spec fn connect_answer(self, selected: Option<TransportType>) -> Result<
        (),
        ElaraError,
    > {
        match self.status {
            SessionStatus::Ended => Err(ElaraError::InvalidState),
            SessionStatus::Connecting | SessionStatus::Active => Ok(()),
            SessionStatus::Waiting | SessionStatus::Paused => if selected is Some {
                Ok(())
            } else {
                Err(ElaraError::NegotiationFailed)
            },
        }
    }

    /// The session after a connect request: active where the request
    /// succeeded from `Waiting` or `Paused`, unchanged in every other case.
    pub open spec fn connected(self, selected: Option<TransportType>) -> SessionState {
        match self.status {
            SessionStatus::Waiting | SessionStatus::Paused => if selected is Some {
                SessionState { status: SessionStatus::Active, ..self }
            } else {
                self
            },
            _ => self,
        }
    }

    /// The session after a pause request: paused if it was active,
    /// unchanged otherwise.
    pub open spec fn paused(self) -> SessionState {
        if self.status == SessionStatus::Active {
            SessionState { status: SessionStatus::Paused, ..self }
        } else {
            self
        }
    }

    /// The session after a resume request: active if it was paused,
    /// unchanged otherwise.
    pub open spec fn resumed(self) -> SessionState {
        if self.status == SessionStatus::Paused {
            SessionState { status: SessionStatus::Active, ..self }
        } else {
            self
        }
    }

    /// The session after a close request: ended.
    pub open spec fn closed(self) -> SessionState {
        SessionState { status: SessionStatus::Ended, ..self }
    }

    /// The session after the video flag is flipped.
    pub open spec fn video_toggled(self) -> SessionState {
        SessionState { video_enabled: !self.video_enabled, ..self }
    }

    /// The session after the audio flag is flipped.
    pub open spec fn audio_toggled(self) -> SessionState {
        SessionState { audio_enabled: !self.audio_enabled, ..self }
    }

    /// Seconds from creation to `now`; zero for a `now` before creation.
    pub open spec fn duration_at(self, now: u64) -> u64 {
        if now >= self.start_time {
            (now - self.start_time) as u64
        } else {
            0
        }
    }
}

impl View for ElaraSession {
    type V = SessionState;

    closed spec fn view(&self) -> SessionState {
        SessionState {
            session_id: self.session_id@,
            local_peer_id: self.local_peer_id@,
            remote_peer_id: self.remote_peer_id@,
            status: self.status,
            quality: self.quality,
            video_enabled: self.video_enabled,
            audio_enabled: self.audio_enabled,
            start_time: self.start_time,
        }
    }
}

impl Clone for ElaraSession {
    /// A snapshot of the session.
    fn clone(&self) -> (copy: Self)
        ensures
            copy@ == self@,
    {
        ElaraSession {
            session_id: self.session_id.clone(),
            local_peer_id: self.local_peer_id.clone(),
            remote_peer_id: self.remote_peer_id.clone(),
            status: self.status,
            quality: self.quality,
            video_enabled: self.video_enabled,
            audio_enabled: self.audio_enabled,
            start_time: self.start_time,
        }
    }
}

impl ElaraSession {
    /// A session created now, by the system clock.
    pub fn new(session_id: String, local_peer_id: String, remote_peer_id: String) -> (session:
        Self)
        ensures
            exists|start_time: u64|
                session@ == #[trigger] SessionState::created(
                    session_id@,
                    local_peer_id@,
                    remote_peer_id@,
                    start_time,
                ),
    {
        Self::started_at(session_id, local_peer_id, remote_peer_id, unix_time())
    }

    /// A session created at `start_time`, in seconds since the Unix epoch.
    pub fn started_at(
        session_id: String,
        local_peer_id: String,
        remote_peer_id: String,
        start_time: u64,
    ) -> (session: Self)
        ensures
            session@ == SessionState::created(
                session_id@,
                local_peer_id@,
                remote_peer_id@,
                start_time,
            ),
    {
        ElaraSession {
            session_id,
            local_peer_id,
            remote_peer_id,
            status: SessionStatus::Waiting,
            quality: ConnectionQuality::unmeasured(),
            video_enabled: true,
            audio_enabled: true,
            start_time,
        }
    }

    /// Identifier of the session.
    pub fn session_id(&self) -> (id: String)
        ensures
            id@ == self@.session_id,
    {
        self.session_id.clone()
    }

    /// Identifier of the local peer.
    pub fn local_peer_id(&self) -> (id: String)
        ensures
            id@ == self@.local_peer_id,
    {
        self.local_peer_id.clone()
    }

    /// Identifier of the remote peer.
    pub fn remote_peer_id(&self) -> (id: String)
        ensures
            id@ == self@.remote_peer_id,
    {
        self.remote_peer_id.clone()
    }

    /// Whether the session goes by the identifier `session_id`.
    pub fn has_session_id(&self, session_id: &String) -> (same: bool)
        ensures
            same == (self@.session_id == session_id@),
    {
        self.session_id == *session_id
    }

    /// The state of the session.
    pub fn get_status(&self) -> (status: SessionStatus)
        ensures
            status == self@.status,
    {
        self.status
    }

    /// The quality snapshot of the session.
    pub fn get_quality(&self) -> (quality: ConnectionQuality)
        ensures
            quality == self@.quality,
    {
        self.quality
    }

    /// Seconds since the session was created, by the system clock.
    pub fn get_duration(&self) -> (seconds: u64)
        ensures
            exists|now: u64| seconds == #[trigger] self@.duration_at(now),
    {
        self.duration_at(unix_time())
    }

    /// Seconds from creation to `now`, itself in seconds since the Unix
    /// epoch. A `now` before creation gives zero.
    pub fn duration_at(&self, now: u64) -> (seconds: u64)
        ensures
            seconds == self@.duration_at(now),
    {
        if now >= self.start_time {
            now - self.start_time
        } else {
            0
        }
    }

    /// Takes the outcome of transport negotiation: the selected transport
    /// class, or `None` if no path could be established. The session
    /// becomes active only with a selected transport.
    pub fn connect(&mut self, selected: Option<TransportType>) -> (answer: Result<(), ElaraError>)
        ensures
            answer == old(self)@.connect_answer(selected),
            final(self)@ == old(self)@.connected(selected),
    {
        match self.status {
            SessionStatus::Ended => Err(ElaraError::InvalidState),
            SessionStatus::Connecting | SessionStatus::Active => Ok(()),
            SessionStatus::Waiting | SessionStatus::Paused => match selected {
                Some(_) => {
                    self.status = SessionStatus::Active;
                    Ok(())
                },
                None => Err(ElaraError::NegotiationFailed),
            },
        }
    }

    /// Flips the video flag and returns its new value. Allowed in every
    /// state.
    pub fn toggle_video(&mut self) -> (enabled: bool)
        ensures
            enabled == !old(self)@.video_enabled,
            final(self)@ == old(self)@.video_toggled(),
    {
        self.video_enabled = !self.video_enabled;
        self.video_enabled
    }

    /// Flips the audio flag and returns its new value. Allowed in every
    /// state.
    pub fn toggle_audio(&mut self) -> (enabled: bool)
        ensures
            enabled == !old(self)@.audio_enabled,
            final(self)@ == old(self)@.audio_toggled(),
    {
        self.audio_enabled = !self.audio_enabled;
        self.audio_enabled
    }

    /// Whether video is enabled.
    pub fn is_video_enabled(&self) -> (enabled: bool)
        ensures
            enabled == self@.video_enabled,
    {
        self.video_enabled
    }

    /// Whether audio is enabled.
    pub fn is_audio_enabled(&self) -> (enabled: bool)
        ensures
            enabled == self@.audio_enabled,
    {
        self.audio_enabled
    }

    /// Puts an active session on hold and says whether it did. In any other
    /// state nothing changes.
    pub fn pause(&mut self) -> (paused: bool)
        ensures
            paused == (old(self)@.status == SessionStatus::Active),
            final(self)@ == old(self)@.paused(),
    {
        if self.status == SessionStatus::Active {
            self.status = SessionStatus::Paused;
            true
        } else {
            false
        }
    }

    /// Takes a paused session off hold and says whether it did. In any
    /// other state nothing changes.
    pub fn resume(&mut self) -> (resumed: bool)
        ensures
            resumed == (old(self)@.status == SessionStatus::Paused),
            final(self)@ == old(self)@.resumed(),
    {
        if self.status == SessionStatus::Paused {
            self.status = SessionStatus::Active;
            true
        } else {
            false
        }
    }

    /// Ends the session and says whether this call ended it. The caller
    /// releases the transport and tells the peer exactly when the answer is
    /// `true`: a second close answers `false` and changes nothing.
    pub fn close(&mut self) -> (ended_now: bool)
        ensures
            ended_now == (old(self)@.status != SessionStatus::Ended),
            final(self)@ == old(self)@.closed(),
    {
        let ended_now = self.status != SessionStatus::Ended;
        self.status = SessionStatus::Ended;
        ended_now
    }
}

/// The moves that the state machine allows: `Waiting` to `Connecting` or
/// `Active`, `Connecting` to `Active`, `Active` to `Paused` and back, and
/// every state to `Ended`. A session may also stay where it is.
pub open spec fn may_follow(from: SessionStatus, to: SessionStatus) -> bool {
    ||| to == from
    ||| to == SessionStatus::Ended
    ||| from == SessionStatus::Waiting && to == SessionStatus::Connecting
    ||| from == SessionStatus::Waiting && to == SessionStatus::Active
    ||| from == SessionStatus::Connecting && to == SessionStatus::Active
    ||| from == SessionStatus::Active && to == SessionStatus::Paused
    ||| from == SessionStatus::Paused && to == SessionStatus::Active
}

/// Every operation moves the session along the state machine, and changes
/// nothing but what it is for: the identifiers, the creation time and the
/// quality snapshot stay, and only a toggle touches a media flag.
pub proof fn operations_follow_state_machine(session: SessionState, selected: Option<TransportType>)
    ensures
        may_follow(session.status, session.connected(selected).status),
        may_follow(session.status, session.paused().status),
        may_follow(session.status, session.resumed().status),
        may_follow(session.status, session.closed().status),
        session.connected(selected) == (SessionState {
            status: session.connected(selected).status,
            ..session
        }),
        session.paused() == (SessionState { status: session.paused().status, ..session }),
        session.resumed() == (SessionState { status: session.resumed().status, ..session }),
        session.closed() == (SessionState { status: SessionStatus::Ended, ..session }),
        session.video_toggled().status == session.status,
        session.audio_toggled().status == session.status,
{
}

/// A pause takes effect only on an active session and a resume only on a
/// paused one; a session becomes active through a connect request only
/// when a transport was selected.
pub proof fn pause_and_resume_need_their_state(
    session: SessionState,
    selected: Option<TransportType>,
)
    ensures
        session.paused() != session <==> session.status == SessionStatus::Active,
        session.status == SessionStatus::Active ==> session.paused().status
            == SessionStatus::Paused,
        session.resumed() != session <==> session.status == SessionStatus::Paused,
        session.status == SessionStatus::Paused ==> session.resumed().status
            == SessionStatus::Active,
        session.connected(selected) != session ==> selected is Some,
        session.connected(selected).status == SessionStatus::Active ==> selected is Some
            || session.status == SessionStatus::Active,
{
}

/// Nothing leaves `Ended`. On an ended session a connect request is
/// refused, and connect, pause, resume and close change nothing at all; a
/// toggle still flips its flag and the session stays ended.
pub proof fn ended_is_terminal(session: SessionState, selected: Option<TransportType>)
    requires
        session.status == SessionStatus::Ended,
    ensures
        session.connect_answer(selected) == Err::<(), ElaraError>(ElaraError::InvalidState),
        session.connected(selected) == session,
        session.paused() == session,
        session.resumed() == session,
        session.closed() == session,
        session.video_toggled().status == SessionStatus::Ended,
        session.audio_toggled().status == SessionStatus::Ended,
{
}

/// Closing twice is closing once: the second close finds the session ended
/// and leaves it as the first close left it.
pub proof fn close_is_idempotent(session: SessionState)
    ensures
        session.closed().status == SessionStatus::Ended,
        session.closed().closed() == session.closed(),
{
}

/// The duration never runs backwards: a later reading of the clock gives a
/// duration that is at least as long.
pub proof fn duration_is_monotonic(session: SessionState, earlier: u64, later: u64)
    requires
        earlier <= later,
    ensures
        session.duration_at(earlier) <= session.duration_at(later),
{
}

} // verus!
