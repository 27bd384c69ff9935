use generic_cong_avoid::config::{Config, GenericCongAvoidConfigReport, GenericCongAvoidConfigSS};
use generic_cong_avoid::flow::FlowState;
use generic_cong_avoid::scheduler::{RawEvent, Totals};

fn state(report_option: GenericCongAvoidConfigReport, deficit_timeout: u32) -> FlowState {
    FlowState::new(
        Config {
            deficit_timeout,
            init_cwnd: 10,
            report_option,
            ss: GenericCongAvoidConfigSS::Ccp,
            ss_thresh: 100,
            use_compensation: false,
        },
        0,
    )
}

fn ack(acked: u32, rtt: u32) -> RawEvent {
    RawEvent { acked, sacked: 0, loss: 0, rtt, inflight: 1, was_timeout: false }
}

#[test]
fn poll_flushes_when_the_cadence_asks() {
    let mut s = state(GenericCongAvoidConfigReport::Interval(1), 1000);
    s.record_event(&ack(5, 100));
    assert_eq!(s.poll(999), None);
    let m = s.poll(1000).unwrap();
    assert_eq!(m.acked, 5);
    assert!(!m.was_timeout);
}

#[test]
fn poll_flushes_at_once_on_a_timeout() {
    let mut s = state(GenericCongAvoidConfigReport::Interval(1_000_000), 2);
    s.record_event(&ack(0, 100));
    assert_eq!(s.poll(200), None);
    let m = s.poll(201).unwrap();
    assert!(m.was_timeout);
    assert_eq!(s.last_progress, 201);
    assert_eq!(s.last_flush, 201);
    assert_eq!(s.poll(202), None);
}

#[test]
fn take_event_folds_then_polls() {
    let mut s = state(GenericCongAvoidConfigReport::Rtt, 1000);
    assert_eq!(s.take_event(&ack(5, 100), 50), None);
    assert_eq!(s.pending.acked, 5);
    let m = s.take_event(&ack(6, 100), 100).unwrap();
    assert_eq!(m.acked, 11);
    assert_eq!(s.pending.events, 0);
}

#[test]
fn take_event_flushes_early_when_the_totals_are_full() {
    let mut s = state(GenericCongAvoidConfigReport::Interval(1_000_000), 1000);
    assert_eq!(s.take_event(&ack(u32::MAX, 100), 1), None);
    let m = s.take_event(&ack(3, 100), 2).unwrap();
    assert_eq!(m.acked, u32::MAX);
    assert_eq!(
        s.pending,
        Totals {
            acked: 3,
            sacked: 0,
            loss: 0,
            rtt: 100,
            inflight: 1,
            was_timeout: false,
            events: 1
        }
    );
    assert_eq!(s.last_flush, 2);
}

#[test]
fn first_event_of_a_flow_is_no_timeout() {
    let mut s = state(GenericCongAvoidConfigReport::Ack, 2);
    let m = s.take_event(&ack(30, 100), 5_000).unwrap();
    assert!(!m.was_timeout);
    assert_eq!(s.last_progress, 5_000);
}

#[test]
fn pending_acknowledgements_hold_the_detector_back() {
    let mut s = state(GenericCongAvoidConfigReport::Interval(1), 2);
    assert_eq!(s.take_event(&ack(30, 100), 100), None);
    assert!(s.is_deficit_exceeded(500));
    assert_eq!(s.poll(500), None);
    assert_eq!(s.take_event(&ack(0, 100), 600), None);
    let m = s.poll(1_000).unwrap();
    assert_eq!(m.acked, 30);
    assert!(!m.was_timeout);
    assert_eq!(s.last_progress, 1_000);
    assert_eq!(s.take_event(&ack(0, 100), 1_200), None);
    let m = s.take_event(&ack(0, 100), 1_201).unwrap();
    assert!(m.was_timeout);
    assert_eq!(m.acked, 0);
}

#[test]
fn snapshots_with_progress_carry_no_timeout() {
    for report in [
        GenericCongAvoidConfigReport::Ack,
        GenericCongAvoidConfigReport::Rtt,
        GenericCongAvoidConfigReport::Interval(2),
    ] {
        let mut s = state(report, 1);
        let mut now = 0u64;
        for i in 0..200u32 {
            now += u64::from(i % 7) * 130;
            let first = s.take_event(&ack(i % 3, 100), now);
            let second = s.poll(now + 90);
            for m in [first, second].into_iter().flatten() {
                assert!(m.acked == 0 || !m.was_timeout);
            }
        }
    }
}
