//! Connection status of a node and the quality snapshot of a session.

use vstd::prelude::*;

verus! {

/// Overall connectivity of a node.
#[derive(Debug, Clone, Copy, PartialEq, Eq, Structural)]
pub enum ConnectionStatus {
    /// Not connected.
    Disconnected,
    /// Connection in progress.
    Connecting,
    /// Connected.
    Connected,
    /// Connected with reduced quality.
    Degraded,
    /// Connection lost, reconnecting.
    Reconnecting,
}

/// A snapshot of how well a connection performs.
#[derive(Debug, Clone, Copy, PartialEq, Eq, Structural)]
pub struct ConnectionQuality {
    /// Quality score from 0 to 100.
    pub score: u8,
    /// Latency in milliseconds.
    pub latency_ms: u32,
    /// Packet loss in hundredths of a percent.
    pub packet_loss: u32,
    /// Available bandwidth in kbps.
    pub bandwidth_kbps: u32,
}

impl ConnectionQuality {
    /// The quality of a connection before anything was measured: a full
    /// score and all measurements zero.
    pub open spec fn spec_unmeasured() -> ConnectionQuality {
        ConnectionQuality { score: 100, latency_ms: 0, packet_loss: 0, bandwidth_kbps: 0 }
    }

    /// The quality of a connection before anything was measured.
    #[verifier::when_used_as_spec(spec_unmeasured)]
    pub fn unmeasured() -> (quality: ConnectionQuality)
        ensures
            quality == Self::spec_unmeasured(),
    {
        ConnectionQuality { score: 100, latency_ms: 0, packet_loss: 0, bandwidth_kbps: 0 }
    }
}

} // verus!
