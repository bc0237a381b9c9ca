use vstd::prelude::*;

use crate::buffer::zero_buffer;
use crate::window::{
    cap_u64, sat_add_i64, sat_add_u64, spec_report, window_wf, ThroughputWindow, WindowReport,
    WINDOW_LENGTH_NS,
};

verus! {

/// Fixed per-packet overhead subtracted from the configured packet size
/// to obtain the payload length. It approximates the UDP/IP/Ethernet
/// framing around the payload; it is a configurable constant of this
/// library, not a law of the protocol.
pub const HEADER_OVERHEAD_BYTES: u16 = 42;

/// Why a sender could not be constructed from its parameters.
#[derive(Clone, Copy, Debug, PartialEq, Eq, Structural)]
pub enum ConfigError {
    /// The packet size does not exceed the per-packet header overhead,
    /// leaving no room for a payload.
    PacketTooSmall,
    /// A target data rate of zero bits per second.
    RateZero,
    /// An adjustment factor of zero.
    FactorZero,
}

/// The zero-filled payload for one datagram: `packet_size` minus the
/// header overhead bytes, or nothing when the packet size leaves no room
/// for a payload.
pub fn payload_buffer(packet_size: u16) -> (r: Option<Vec<u8>>)
    ensures
        match r {
            Some(buf) => {
                &&& packet_size > HEADER_OVERHEAD_BYTES
                &&& buf@.len() == packet_size - HEADER_OVERHEAD_BYTES
                &&& forall|i: int| 0 <= i < buf@.len() ==> buf@[i] == 0u8
            },
            None => packet_size <= HEADER_OVERHEAD_BYTES,
        },
{
    if packet_size > HEADER_OVERHEAD_BYTES {
        Some(zero_buffer((packet_size - HEADER_OVERHEAD_BYTES) as usize))
    } else {
        None
    }
}

/// The additive-increase/multiplicative-decrease rule for the pacing
/// interval. An iteration that took at least the target duration means
/// the loop runs slow: halve the interval. A faster iteration means the
/// loop runs fast: add `target / factor` to the interval, saturating at
/// the machine word.
pub open spec fn aimd_next(current_ns: u64, actual_ns: u64, target_ns: u64, factor: u64) -> u64
    recommends
        factor >= 1,
{
    if actual_ns >= target_ns {
        current_ns / 2
    } else {
        cap_u64(current_ns + target_ns / factor)
    }
}

/// One AIMD adjustment of the pacing interval.
pub fn aimd_step(current_ns: u64, actual_ns: u64, target_ns: u64, factor: u64) -> (r: u64)
    requires
        factor >= 1,
    ensures
        r == aimd_next(current_ns, actual_ns, target_ns, factor),
{
    if actual_ns >= target_ns {
        current_ns / 2
    } else {
        current_ns.saturating_add(target_ns / factor)
    }
}

/// The AIMD law: for every interval, every pair of actual and target
/// durations and every factor of at least one, a slow iteration
/// (`actual >= target`) halves the interval, and a fast one adds
/// `target / factor` — exactly, whenever that sum fits the machine word.
pub proof fn lemma_aimd(current_ns: u64, actual_ns: u64, target_ns: u64, factor: u64)
    requires
        factor >= 1,
        current_ns + target_ns / factor <= u64::MAX,
    ensures
        actual_ns >= target_ns ==> aimd_next(current_ns, actual_ns, target_ns, factor)
            == current_ns / 2,
        actual_ns < target_ns ==> aimd_next(current_ns, actual_ns, target_ns, factor)
            == current_ns + target_ns / factor,
{
}

/// The wall-clock duration one iteration must take for the configured
/// rate: `payload bits / rate` in nanoseconds, rounded down.
pub open spec fn spec_target_iteration_ns(payload_len: u16, rate_bps: u64) -> int
    recommends
        rate_bps >= 1,
{
    (payload_len * 8 * 1_000_000_000) / (rate_bps as int)
}

/// Nanoseconds per iteration for a payload of `payload_len` bytes at
/// `rate_bps` bits per second.
pub fn target_iteration_ns(payload_len: u16, rate_bps: u64) -> (r: u64)
    requires
        rate_bps >= 1,
    ensures
        r == spec_target_iteration_ns(payload_len, rate_bps),
{
    let bits: u64 = (payload_len as u64) * 8;
    (bits * 1_000_000_000) / rate_bps
}

/// The sender's pacing state: the live control variable
/// `current_sleep_ns` adjusted by AIMD each iteration, the fixed
/// configuration it steers towards, and the current one-second
/// accounting window. The socket work around it — send one datagram,
/// poll for an acknowledgement, busy-wait for the sleep interval on a
/// monotonic clock — is the caller's loop; this state decides how long
/// to sleep and what each window reports.
#[derive(Debug)]
pub struct PacedSender {
    pub packet_size: u16,
    pub payload_len: u16,
    pub target_ns: u64,
    pub factor: u64,
    pub current_sleep_ns: u64,
    pub window: ThroughputWindow,
}

/// Well-formedness of a sender: the payload length is the packet size
/// less the header overhead, the adjustment factor divides a duration,
/// and the window is consistent.
pub open spec fn sender_wf(s: PacedSender) -> bool {
    &&& s.packet_size > HEADER_OVERHEAD_BYTES
    &&& s.payload_len == s.packet_size - HEADER_OVERHEAD_BYTES
    &&& s.factor >= 1
    &&& window_wf(s.window)
}

impl PacedSender {
    /// Build a sender for `packet_size`-byte packets at `rate_bps` bits
    /// per second with AIMD factor `factor`. Construction fails exactly
    /// when the packet size leaves no payload, the rate is zero, or the
    /// factor is zero; the initial pacing interval is the target
    /// iteration duration itself.
    pub fn new(packet_size: u16, rate_bps: u64, factor: u64) -> (r: Result<
        PacedSender,
        ConfigError,
    >)
        ensures
            match r {
                Ok(s) => {
                    &&& packet_size > HEADER_OVERHEAD_BYTES
                    &&& rate_bps >= 1
                    &&& factor >= 1
                    &&& sender_wf(s)
                    &&& s.packet_size == packet_size
                    &&& s.factor == factor
                    &&& s.target_ns == spec_target_iteration_ns(
                        (packet_size - HEADER_OVERHEAD_BYTES) as u16,
                        rate_bps,
                    )
                    &&& s.current_sleep_ns == s.target_ns
                    &&& s.window == (ThroughputWindow {
                        iteration_count: 0u64,
                        sleep_ns: 0u64,
                        acks_received: 0u64,
                        adjustment_balance: 0i64,
                    })
                },
                Err(ConfigError::PacketTooSmall) => packet_size <= HEADER_OVERHEAD_BYTES,
                Err(ConfigError::RateZero) => packet_size > HEADER_OVERHEAD_BYTES && rate_bps == 0,
                Err(ConfigError::FactorZero) => packet_size > HEADER_OVERHEAD_BYTES && rate_bps >= 1
                    && factor == 0,
            },
    {
        if packet_size <= HEADER_OVERHEAD_BYTES {
            return Err(ConfigError::PacketTooSmall);
        }
        if rate_bps == 0 {
            return Err(ConfigError::RateZero);
        }
        if factor == 0 {
            return Err(ConfigError::FactorZero);
        }
        let payload_len: u16 = packet_size - HEADER_OVERHEAD_BYTES;
        let target_ns: u64 = target_iteration_ns(payload_len, rate_bps);
        Ok(PacedSender {
            packet_size,
            payload_len,
            target_ns,
            factor,
            current_sleep_ns: target_ns,
            window: ThroughputWindow::new(),
        })
    }

    /// The zero-filled payload this sender puts in each datagram.
    pub fn payload(&self) -> (r: Vec<u8>)
        requires
            sender_wf(*self),
        ensures
            r@.len() == self.payload_len,
            forall|i: int| 0 <= i < r@.len() ==> r@[i] == 0u8,
    {
        zero_buffer(self.payload_len as usize)
    }

    /// Close one iteration that took `iteration_ns` of wall time and did
    /// or did not see an acknowledgement: the window counts the
    /// iteration, the slept interval and the acknowledgement, the
    /// adjustment balance records the direction of the AIMD step, and
    /// the pacing interval takes its next value.
    pub fn finish_iteration(&mut self, acked: bool, iteration_ns: u64)
        requires
            sender_wf(*old(self)),
        ensures
            sender_wf(*final(self)),
            final(self).packet_size == old(self).packet_size,
            final(self).payload_len == old(self).payload_len,
            final(self).target_ns == old(self).target_ns,
            final(self).factor == old(self).factor,
            final(self).current_sleep_ns == aimd_next(
                old(self).current_sleep_ns,
                iteration_ns,
                old(self).target_ns,
                old(self).factor,
            ),
            final(self).window.iteration_count == sat_add_u64(
                old(self).window.iteration_count,
                1,
            ),
            final(self).window.sleep_ns == sat_add_u64(
                old(self).window.sleep_ns,
                old(self).current_sleep_ns,
            ),
            final(self).window.acks_received == if acked {
                sat_add_u64(old(self).window.acks_received, 1)
            } else {
                old(self).window.acks_received
            },
            final(self).window.adjustment_balance == sat_add_i64(
                old(self).window.adjustment_balance,
                if iteration_ns >= old(self).target_ns { -1i64 } else { 1i64 },
            ),
    {
        let slept: u64 = self.current_sleep_ns;
        self.window.record_iteration(slept, acked);
        if iteration_ns >= self.target_ns {
            self.window.record_adjustment(false);
        } else {
            self.window.record_adjustment(true);
        }
        self.current_sleep_ns = aimd_step(
            self.current_sleep_ns,
            iteration_ns,
            self.target_ns,
            self.factor,
        );
    }

    /// Report and reset the window once at least one window length has
    /// elapsed since it started. Before that, nothing happens. At or
    /// past the window length the window is cleared, and its report is
    /// returned — unless it counted no iterations, in which case there
    /// is nothing to divide by and no report.
    pub fn maybe_report(&mut self, elapsed_ns: u64) -> (r: Option<WindowReport>)
        requires
            sender_wf(*old(self)),
        ensures
            sender_wf(*final(self)),
            final(self).packet_size == old(self).packet_size,
            final(self).payload_len == old(self).payload_len,
            final(self).target_ns == old(self).target_ns,
            final(self).factor == old(self).factor,
            final(self).current_sleep_ns == old(self).current_sleep_ns,
            elapsed_ns < WINDOW_LENGTH_NS ==> r is None && final(self).window
                == old(self).window,
            elapsed_ns >= WINDOW_LENGTH_NS ==> final(self).window == (ThroughputWindow {
                iteration_count: 0u64,
                sleep_ns: 0u64,
                acks_received: 0u64,
                adjustment_balance: 0i64,
            }),
            elapsed_ns >= WINDOW_LENGTH_NS && old(self).window.iteration_count == 0 ==> r is None,
            elapsed_ns >= WINDOW_LENGTH_NS && old(self).window.iteration_count >= 1 ==> r
                == Some(spec_report(old(self).window, elapsed_ns, old(self).packet_size)),
    {
        if elapsed_ns >= WINDOW_LENGTH_NS {
            let rep = self.window.report(elapsed_ns, self.packet_size);
            self.window.reset();
            rep
        } else {
            None
        }
    }
}

} // verus!
