//! Session lifecycle, transport negotiation and adaptive media quality for
//! one-to-one real-time calls.

pub mod clock;
pub mod connection;
pub mod error;
pub mod media;
pub mod node;
pub mod session;
pub mod token;
pub mod transport;

pub use crate::connection::{ConnectionQuality, ConnectionStatus};
pub use crate::error::ElaraError;
pub use crate::media::{AudioConfig, MediaEngine, MediaStats, VideoConfig, VideoQualityLevel};
pub use crate::node::{ElaraConfig, ElaraNode};
pub use crate::session::{ElaraSession, SessionEvent, SessionStatus};
pub use crate::token::generate_session_token;
pub use crate::transport::{
    ConnectivityCheck, IceCandidate, TransportManager, TransportStats, TransportType,
};
