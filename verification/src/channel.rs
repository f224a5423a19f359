//! Protocol channel: the in-memory structure through which protocol frames
//! are exchanged with the sensor firmware.
//!
//! The channel owns two fixed-size buffers (a packet buffer and a
//! transmit/receive buffer sized to the transport's maximum transmission
//! unit), the transport-level receive timeout, an argument slot used by some
//! firmware calls, and the last raw result code. The read/write transport
//! hooks start unset; the platform layer installs them during
//! initialization, never this crate.

use vstd::prelude::*;

verus! {

/// Capacity of the packet buffer in bytes.
pub const PACKET_BUFFER_CAPACITY: usize = 3072;

/// Maximum transmission unit of the transport, and so the capacity of the
/// transmit/receive buffer.
pub const TRANSPORT_MTU: usize = 256;

/// Transport-level receive timeout in milliseconds.
pub const PHY_RX_TIMEOUT_MS: u32 = 2000;

/// The protocol channel handed to the platform layer and firmware library.
pub struct ProtocolChannel {
    /// Whether the platform layer has installed the transport read hook.
    pub read_hook_set: bool,
    /// Whether the platform layer has installed the transport write hook.
    pub write_hook_set: bool,
    /// Receive timeout in milliseconds.
    pub phy_rx_timeout: u32,
    /// Packet assembly buffer; capacity fixed at construction.
    pub pkt_buffer: Vec<u8>,
    /// Size of the packet currently held in the packet buffer.
    pub pkt_size: usize,
    /// Transmit/receive buffer; capacity fixed at construction.
    pub txrx_buffer: Vec<u8>,
    /// Size of the argument slot used by some firmware calls.
    pub arg_size: usize,
    /// Last raw result code the firmware reported on this channel.
    pub bep_result: i32,
}

impl ProtocolChannel {
    /// Well-formedness: the buffer capacities are the fixed ones and the
    /// current packet fits in the packet buffer.
    pub open spec fn wf(self) -> bool {
        &&& self.pkt_buffer@.len() == PACKET_BUFFER_CAPACITY
        &&& self.txrx_buffer@.len() == TRANSPORT_MTU
        &&& self.pkt_size <= PACKET_BUFFER_CAPACITY
    }

    /// A channel exactly as construction leaves it: hooks unset, timeout at
    /// its fixed value, no packet pending, both buffers zeroed.
    pub open spec fn fresh(self) -> bool {
        &&& self.wf()
        &&& !self.read_hook_set
        &&& !self.write_hook_set
        &&& self.phy_rx_timeout == PHY_RX_TIMEOUT_MS
        &&& self.pkt_size == 0
        &&& self.arg_size == 0
        &&& self.bep_result == 0
        &&& forall|i: int| 0 <= i < self.pkt_buffer@.len() ==> self.pkt_buffer@[i] == 0u8
        &&& forall|i: int| 0 <= i < self.txrx_buffer@.len() ==> self.txrx_buffer@[i] == 0u8
    }

    /// Allocates a fresh channel with zeroed buffers and unset hooks.
    pub fn new() -> (c: ProtocolChannel)
        ensures
            c.fresh(),
    {
        ProtocolChannel {
            read_hook_set: false,
            write_hook_set: false,
            phy_rx_timeout: PHY_RX_TIMEOUT_MS,
            pkt_buffer: zeroed_buffer(PACKET_BUFFER_CAPACITY),
            pkt_size: 0,
            txrx_buffer: zeroed_buffer(TRANSPORT_MTU),
            arg_size: 0,
            bep_result: 0,
        }
    }
}

/// Allocates a byte buffer of length `n` filled with zeros.
pub fn zeroed_buffer(n: usize) -> (v: Vec<u8>)
    ensures
        v@.len() == n,
        forall|i: int| 0 <= i < n ==> v@[i] == 0u8,
{
    let mut v: Vec<u8> = Vec::new();
    let mut i: usize = 0;
    while i < n
        invariant
            i <= n,
            v@.len() == i,
            forall|j: int| 0 <= j < i ==> v@[j] == 0u8,
        decreases n - i,
    {
        v.push(0u8);
        i = i + 1;
    }
    v
}

} // verus!
