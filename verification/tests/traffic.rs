use netmap::pacing::{
    aimd_step, payload_buffer, target_iteration_ns, ConfigError, PacedSender,
    HEADER_OVERHEAD_BYTES,
};

#[test]
fn payload_is_packet_size_minus_overhead() {
    let buf = payload_buffer(1500).unwrap();
    assert_eq!(buf.len(), 1458);
    assert!(buf.iter().all(|b| *b == 0));

    let small = payload_buffer(43).unwrap();
    assert_eq!(small.len(), 1);
}

#[test]
fn payload_at_the_largest_packet_size() {
    let buf = payload_buffer(u16::MAX).unwrap();
    assert_eq!(buf.len(), 65535 - 42);
}

#[test]
fn payload_fails_when_no_room() {
    assert_eq!(HEADER_OVERHEAD_BYTES, 42);
    assert!(payload_buffer(42).is_none());
    assert!(payload_buffer(0).is_none());
}

#[test]
fn aimd_halves_when_slow() {
    assert_eq!(aimd_step(1000, 2000, 1500, 2), 500);
    assert_eq!(aimd_step(1000, 1500, 1500, 2), 500);
    assert_eq!(aimd_step(1, 10, 5, 1), 0);
}

#[test]
fn aimd_adds_when_fast() {
    assert_eq!(aimd_step(1000, 900, 1500, 3), 1500);
    assert_eq!(aimd_step(0, 0, 1500, 1), 1500);
    assert_eq!(aimd_step(u64::MAX, 0, 10, 1), u64::MAX);
}

#[test]
fn target_duration_for_one_mbps() {
    // 1458 payload bytes at 1 Mbit/s: 11664 bits take 11.664 ms.
    assert_eq!(target_iteration_ns(1458, 1_000_000), 11_664_000);
}

#[test]
fn sender_rejects_bad_configuration() {
    assert_eq!(
        PacedSender::new(42, 1_000_000, 10).unwrap_err(),
        ConfigError::PacketTooSmall
    );
    assert_eq!(
        PacedSender::new(1500, 0, 10).unwrap_err(),
        ConfigError::RateZero
    );
    assert_eq!(
        PacedSender::new(1500, 1_000_000, 0).unwrap_err(),
        ConfigError::FactorZero
    );
}

#[test]
fn sender_initial_state() {
    let s = PacedSender::new(1500, 1_000_000, 10).unwrap();
    assert_eq!(s.payload_len, 1458);
    assert_eq!(s.target_ns, 11_664_000);
    assert_eq!(s.current_sleep_ns, 11_664_000);
    assert_eq!(s.window.iteration_count, 0);
    assert_eq!(s.payload().len(), 1458);
}

#[test]
fn sender_iteration_updates_window_and_interval() {
    let mut s = PacedSender::new(1500, 1_000_000, 10).unwrap();
    // Slow iteration: interval halves, balance goes down.
    s.finish_iteration(true, 11_664_000);
    assert_eq!(s.current_sleep_ns, 5_832_000);
    assert_eq!(s.window.iteration_count, 1);
    assert_eq!(s.window.acks_received, 1);
    assert_eq!(s.window.sleep_ns, 11_664_000);
    assert_eq!(s.window.adjustment_balance, -1);
    // Fast iteration without ack: interval grows by target/factor.
    s.finish_iteration(false, 1_000_000);
    assert_eq!(s.current_sleep_ns, 5_832_000 + 1_166_400);
    assert_eq!(s.window.iteration_count, 2);
    assert_eq!(s.window.acks_received, 1);
    assert_eq!(s.window.adjustment_balance, 0);
}

#[test]
fn sender_reports_only_after_a_full_window() {
    let mut s = PacedSender::new(1500, 1_000_000, 10).unwrap();
    s.finish_iteration(true, 11_664_000);
    assert!(s.maybe_report(999_999_999).is_none());
    assert_eq!(s.window.iteration_count, 1);
    let rep = s.maybe_report(1_000_000_000).unwrap();
    assert_eq!(rep.iteration_count, 1);
    assert_eq!(s.window.iteration_count, 0);
    assert_eq!(s.window.acks_received, 0);
    assert_eq!(s.window.adjustment_balance, 0);
}

#[test]
fn paced_run_at_one_mbps_hits_the_target_rate() {
    // A sender at 1.0 Mbit/s with 1500-byte packets, driven for one full
    // window with every iteration taking exactly the target duration and
    // every packet acknowledged, reports a rate close to 1.0 Mbit/s and
    // an acknowledged share of at most 100 %.
    let mut s = PacedSender::new(1500, 1_000_000, 10).unwrap();
    let step = s.target_ns;
    let mut elapsed: u64 = 0;
    let mut report = None;
    while report.is_none() {
        s.finish_iteration(true, step);
        elapsed += step;
        report = s.maybe_report(elapsed);
    }
    let rep = report.unwrap();
    // 86 iterations of 11.664 ms pass the one-second mark.
    assert_eq!(rep.iteration_count, 86);
    assert_eq!(rep.transferred_bytes, 86 * 1500);
    let rate = rep.throughput_bits_per_sec as f64;
    assert!(rate > 800_000.0 && rate < 1_200_000.0);
    assert!(rep.loss_percent_hundredths <= 10_000);
    assert_eq!(rep.loss_percent_hundredths, 10_000);
    assert_eq!(rep.avg_pass_ns, elapsed / 86);
}
