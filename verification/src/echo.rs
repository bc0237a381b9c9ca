use vstd::prelude::*;

use crate::buffer::zero_buffer;
use crate::window::{sat_add_u64, spec_throughput_bps, WINDOW_LENGTH_NS};

verus! {

/// The receiver's accounting: bytes received since the current
/// measuring period began. The socket work around it — poll for a
/// datagram, echo a zero-filled acknowledgement of equal size back to
/// the sender — is the caller's loop; each datagram is independent and
/// no connection state is kept.
pub struct EchoReceiver {
    pub bytes_received: u64,
}

impl EchoReceiver {
    /// A fresh receiver that has counted nothing.
    pub fn new() -> (r: EchoReceiver)
        ensures
            r.bytes_received == 0,
    {
        EchoReceiver { bytes_received: 0 }
    }

    /// The acknowledgement for a received datagram of `size` bytes: a
    /// zero-filled buffer of the same length, interpreting nothing of
    /// the payload.
    pub fn ack_buffer(size: usize) -> (r: Vec<u8>)
        ensures
            r@.len() == size,
            forall|i: int| 0 <= i < r@.len() ==> r@[i] == 0u8,
    {
        zero_buffer(size)
    }

    /// Count one received datagram of `size` bytes.
    pub fn record(&mut self, size: usize)
        ensures
            final(self).bytes_received == sat_add_u64(old(self).bytes_received, size as u64),
    {
        self.bytes_received = self.bytes_received.saturating_add(size as u64);
    }

    /// Close the measuring period if more than one window length has
    /// elapsed since it began: the byte counter restarts at zero, and
    /// the achieved rate in bits per second is reported — unless
    /// nothing was received, in which case nothing is reported. Before
    /// the window length is up, nothing happens.
    pub fn tick(&mut self, elapsed_ns: u64) -> (r: Option<u64>)
        ensures
            elapsed_ns <= WINDOW_LENGTH_NS ==> r is None && *final(self) == *old(self),
            elapsed_ns > WINDOW_LENGTH_NS ==> final(self).bytes_received == 0,
            elapsed_ns > WINDOW_LENGTH_NS && old(self).bytes_received == 0 ==> r is None,
            elapsed_ns > WINDOW_LENGTH_NS && old(self).bytes_received >= 1 ==> r == Some(
                spec_throughput_bps(old(self).bytes_received, elapsed_ns),
            ),
    {
        if elapsed_ns <= WINDOW_LENGTH_NS {
            return None;
        }
        let bytes: u64 = self.bytes_received;
        self.bytes_received = 0;
        if bytes == 0 {
            return None;
        }
        proof {
            assert((bytes as int) * 8 * 1_000_000_000 <= (u64::MAX as int) * 8 * 1_000_000_000)
                by (nonlinear_arith)
                requires bytes <= u64::MAX;
        }
        let bits_wide: u128 = (bytes as u128) * 8 * 1_000_000_000;
        let rate_wide: u128 = bits_wide / (elapsed_ns as u128);
        let rate: u64 = if rate_wide > (u64::MAX as u128) {
            u64::MAX
        } else {
            rate_wide as u64
        };
        Some(rate)
    }
}

} // verus!
