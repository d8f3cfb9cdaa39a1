//! The probe's parameters, fixed once at start-up.
use vstd::prelude::*;

verus! {

/// Size in bytes of every datagram sent.
pub const PACKET_SIZE: usize = 1316;

/// Send-buffer size, in bytes, asked of the kernel before sending.
pub const REQUESTED_SEND_BUF_SIZE: i32 = 20000;

/// Local address the socket is bound to.
pub const SOURCE_ADDR: &'static str = "10.0.0.2:1234";

/// Address every datagram is sent to.
pub const DEST_ADDR: &'static str = "10.0.0.8:1235";

/// Exclusive end of the sequence numbers: numbers `1 .. NUM_PACKETS_TO_SEND`
/// are sent, one datagram each.
pub const NUM_PACKETS_TO_SEND: u32 = 200;

/// What the probe sends and what it asks of the kernel.
#[derive(Clone, Copy, Debug, PartialEq, Eq, Structural)]
pub struct ProbeConfig {
    /// Length of every datagram; the first four bytes carry the sequence number.
    pub packet_size: usize,
    /// Send-buffer size requested before the first send.
    pub requested_send_buf_size: i32,
    /// Sequence numbers run from 1 up to, not including, this value.
    pub seq_end: u32,
}

impl ProbeConfig {
    /// A datagram must have room for its sequence number.
    pub open spec fn valid(&self) -> bool {
        self.packet_size >= 4
    }

    /// The probe's standard parameters.
    pub fn standard() -> (r: ProbeConfig)
        ensures
            r == (ProbeConfig {
                packet_size: PACKET_SIZE,
                requested_send_buf_size: REQUESTED_SEND_BUF_SIZE,
                seq_end: NUM_PACKETS_TO_SEND,
            }),
            r.valid(),
    {
        ProbeConfig {
            packet_size: PACKET_SIZE,
            requested_send_buf_size: REQUESTED_SEND_BUF_SIZE,
            seq_end: NUM_PACKETS_TO_SEND,
        }
    }

    /// Number of send attempts the probe makes when no send fails outright.
    pub open spec fn attempts(&self) -> nat {
        if self.seq_end >= 1 {
            (self.seq_end - 1) as nat
        } else {
            0
        }
    }
}

} // verus!
