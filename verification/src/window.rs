use vstd::prelude::*;

verus! {

/// Length of one reporting window in nanoseconds: throughput and loss
/// are aggregated and reported once per second.
pub const WINDOW_LENGTH_NS: u64 = 1_000_000_000;

/// A non-negative integer clipped to the machine word.
pub open spec fn cap_u64(x: int) -> u64
    recommends
        x >= 0,
{
    if x > u64::MAX {
        u64::MAX
    } else {
        x as u64
    }
}

/// Addition on a window counter: the counters saturate instead of
/// wrapping, so an over-long run degrades the statistics rather than the
/// program.
pub open spec fn sat_add_u64(a: u64, b: u64) -> u64 {
    cap_u64(a + b)
}

/// Signed saturating addition for the adjustment balance.
pub open spec fn sat_add_i64(a: i64, b: i64) -> i64 {
    if a + b > i64::MAX {
        i64::MAX
    } else if a + b < i64::MIN {
        i64::MIN
    } else {
        (a + b) as i64
    }
}

/// The rolling one-second accumulator behind the sender's interval
/// reports: how many iterations ran, how long they slept in total, how
/// many acknowledgements came back, and how often the pacing interval
/// was grown versus shrunk.
#[derive(Clone, Copy, Debug, PartialEq, Eq, Structural)]
pub struct ThroughputWindow {
    pub iteration_count: u64,
    pub sleep_ns: u64,
    pub acks_received: u64,
    pub adjustment_balance: i64,
}

/// What a window promises of itself: no more acknowledgements than
/// iterations, since at most one acknowledgement is recorded per
/// iteration. Iterations and acknowledgements only move together (both
/// grow within a window, both are cleared by a reset), never
/// independently.
pub open spec fn window_wf(w: ThroughputWindow) -> bool {
    w.acks_received <= w.iteration_count
}

/// The figures derived from one window when it is reported. All
/// durations are nanoseconds; `loss_percent_hundredths` is the share of
/// sent packets that were acknowledged, in hundredths of a percent, so
/// that the quotient is carried exactly in integers.
#[derive(Clone, Copy, Debug, PartialEq, Eq, Structural)]
pub struct WindowReport {
    pub iteration_count: u64,
    pub acks_received: u64,
    pub transferred_bytes: u64,
    pub throughput_bits_per_sec: u64,
    pub loss_percent_hundredths: u64,
    pub avg_pass_ns: u64,
    pub avg_sleep_ns: u64,
    pub avg_runtime_ns: u64,
    pub adjustment_balance: i64,
}

/// Bytes put on the wire during the window: one packet per iteration.
pub open spec fn spec_transferred_bytes(iteration_count: u64, packet_size: u16) -> u64 {
    cap_u64(iteration_count * packet_size)
}

/// Achieved rate in bits per second over the elapsed window time.
pub open spec fn spec_throughput_bps(bytes: u64, elapsed_ns: u64) -> u64
    recommends
        elapsed_ns >= 1,
{
    cap_u64((bytes * 8 * 1_000_000_000) / (elapsed_ns as int))
}

/// Acknowledged share of sent packets, in hundredths of a percent:
/// `acks / iterations * 100`, carried as `acks * 10000 / iterations`.
pub open spec fn spec_loss_percent_hundredths(acks: u64, iteration_count: u64) -> u64
    recommends
        iteration_count >= 1,
        acks <= iteration_count,
{
    ((acks * 10000) / (iteration_count as int)) as u64
}

/// The full report of a window over `elapsed_ns` of wall-clock time.
pub open spec fn spec_report(w: ThroughputWindow, elapsed_ns: u64, packet_size: u16) -> WindowReport
    recommends
        elapsed_ns >= 1,
        w.iteration_count >= 1,
        window_wf(w),
{
    WindowReport {
        iteration_count: w.iteration_count,
        acks_received: w.acks_received,
        transferred_bytes: spec_transferred_bytes(w.iteration_count, packet_size),
        throughput_bits_per_sec: spec_throughput_bps(
            spec_transferred_bytes(w.iteration_count, packet_size),
            elapsed_ns,
        ),
        loss_percent_hundredths: spec_loss_percent_hundredths(w.acks_received, w.iteration_count),
        avg_pass_ns: elapsed_ns / w.iteration_count,
        avg_sleep_ns: w.sleep_ns / w.iteration_count,
        avg_runtime_ns: if elapsed_ns / w.iteration_count >= w.sleep_ns / w.iteration_count {
            (elapsed_ns / w.iteration_count - w.sleep_ns / w.iteration_count) as u64
        } else {
            0u64
        },
        adjustment_balance: w.adjustment_balance,
    }
}

impl ThroughputWindow {
    /// An empty window: all counters zero.
    pub fn new() -> (w: ThroughputWindow)
        ensures
            w.iteration_count == 0,
            w.sleep_ns == 0,
            w.acks_received == 0,
            w.adjustment_balance == 0,
            window_wf(w),
    {
        ThroughputWindow { iteration_count: 0, sleep_ns: 0, acks_received: 0, adjustment_balance: 0 }
    }

    /// Account for one completed iteration: it slept `slept_ns` and
    /// received an acknowledgement or not.
    pub fn record_iteration(&mut self, slept_ns: u64, acked: bool)
        requires
            window_wf(*old(self)),
        ensures
            window_wf(*final(self)),
            final(self).iteration_count == sat_add_u64(old(self).iteration_count, 1),
            final(self).sleep_ns == sat_add_u64(old(self).sleep_ns, slept_ns),
            final(self).acks_received == if acked {
                sat_add_u64(old(self).acks_received, 1)
            } else {
                old(self).acks_received
            },
            final(self).adjustment_balance == old(self).adjustment_balance,
    {
        self.iteration_count = self.iteration_count.saturating_add(1);
        self.sleep_ns = self.sleep_ns.saturating_add(slept_ns);
        if acked {
            self.acks_received = self.acks_received.saturating_add(1);
        }
    }

    /// Account for one pacing adjustment: the interval grew
    /// (`increased`, balance +1) or shrank (balance -1). A balance near
    /// zero in steady state means the interval is neither constantly
    /// growing nor shrinking.
    pub fn record_adjustment(&mut self, increased: bool)
        ensures
            final(self).adjustment_balance == sat_add_i64(
                old(self).adjustment_balance,
                if increased { 1i64 } else { -1i64 },
            ),
            final(self).iteration_count == old(self).iteration_count,
            final(self).sleep_ns == old(self).sleep_ns,
            final(self).acks_received == old(self).acks_received,
    {
        let delta: i64 = if increased { 1 } else { -1 };
        self.adjustment_balance = match self.adjustment_balance.checked_add(delta) {
            Some(b) => b,
            None => if increased { i64::MAX } else { i64::MIN },
        };
    }

    /// Clear every counter, starting the next window. The counters are
    /// only ever cleared together.
    pub fn reset(&mut self)
        ensures
            final(self).iteration_count == 0,
            final(self).sleep_ns == 0,
            final(self).acks_received == 0,
            final(self).adjustment_balance == 0,
            window_wf(*final(self)),
    {
        self.iteration_count = 0;
        self.sleep_ns = 0;
        self.acks_received = 0;
        self.adjustment_balance = 0;
    }

    /// Compute the report for this window over `elapsed_ns` of wall
    /// time. A window with no iterations yields no report: every
    /// quotient in the report divides by the iteration count, so an
    /// empty window is skipped rather than divided by.
    pub fn report(&self, elapsed_ns: u64, packet_size: u16) -> (r: Option<WindowReport>)
        requires
            window_wf(*self),
            elapsed_ns >= 1,
        ensures
            r is None <==> self.iteration_count == 0,
            self.iteration_count >= 1 ==> r == Some(spec_report(*self, elapsed_ns, packet_size)),
    {
        if self.iteration_count == 0 {
            return None;
        }
        let iters: u64 = self.iteration_count;
        proof {
            assert((iters as int) * (packet_size as int) <= (u64::MAX as int) * 65535)
                by (nonlinear_arith)
                requires iters <= u64::MAX, packet_size <= 65535;
        }
        let bytes_wide: u128 = (iters as u128) * (packet_size as u128);
        let bytes: u64 = if bytes_wide > (u64::MAX as u128) {
            u64::MAX
        } else {
            bytes_wide as u64
        };
        assert(bytes == spec_transferred_bytes(iters, packet_size));
        proof {
            assert((bytes as int) * 8 * 1_000_000_000 <= (u64::MAX as int) * 8 * 1_000_000_000)
                by (nonlinear_arith)
                requires bytes <= u64::MAX;
        }
        let bits_wide: u128 = (bytes as u128) * 8 * 1_000_000_000;
        let tput_wide: u128 = bits_wide / (elapsed_ns as u128);
        let tput: u64 = if tput_wide > (u64::MAX as u128) {
            u64::MAX
        } else {
            tput_wide as u64
        };
        assert(tput == spec_throughput_bps(bytes, elapsed_ns));
        let loss_wide: u128 = ((self.acks_received as u128) * 10000) / (iters as u128);
        proof {
            let a = self.acks_received as int;
            let n = iters as int;
            assert(a * 10000 <= n * 10000) by (nonlinear_arith)
                requires a <= n;
            assert((n * 10000) / n == 10000) by (nonlinear_arith)
                requires n >= 1;
            vstd::arithmetic::div_mod::lemma_div_is_ordered(a * 10000, n * 10000, n);
            assert(loss_wide <= 10000);
        }
        let loss: u64 = loss_wide as u64;
        let avg_pass: u64 = elapsed_ns / iters;
        let avg_sleep: u64 = self.sleep_ns / iters;
        let avg_runtime: u64 = if avg_pass >= avg_sleep {
            avg_pass - avg_sleep
        } else {
            0
        };
        Some(WindowReport {
            iteration_count: iters,
            acks_received: self.acks_received,
            transferred_bytes: bytes,
            throughput_bits_per_sec: tput,
            loss_percent_hundredths: loss,
            avg_pass_ns: avg_pass,
            avg_sleep_ns: avg_sleep,
            avg_runtime_ns: avg_runtime,
            adjustment_balance: self.adjustment_balance,
        })
    }
}

} // verus!
