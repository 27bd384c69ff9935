use generic_cong_avoid::config::{Config, GenericCongAvoidConfigReport, GenericCongAvoidConfigSS};
use generic_cong_avoid::flow::FlowState;
use generic_cong_avoid::measurements::GenericCongAvoidMeasurements;
use generic_cong_avoid::scheduler::RawEvent;

fn state(use_compensation: bool) -> FlowState {
    FlowState::new(
        Config {
            deficit_timeout: 2,
            init_cwnd: 10,
            report_option: GenericCongAvoidConfigReport::Interval(1),
            ss: GenericCongAvoidConfigSS::Ccp,
            ss_thresh: 100,
            use_compensation,
        },
        0,
    )
}

fn sample() -> GenericCongAvoidMeasurements {
    GenericCongAvoidMeasurements {
        acked: 100,
        was_timeout: true,
        sacked: 7,
        loss: 5,
        rtt: 250,
        inflight: 9,
    }
}

#[test]
fn compensation_off_is_the_identity() {
    let mut s = state(false);
    for folded in [0u32, 1, 2, 1000] {
        s.folded = folded;
        assert_eq!(s.adjust(&sample()), sample());
    }
}

#[test]
fn compensation_gives_the_mean_per_event() {
    let mut s = state(true);
    s.folded = 4;
    assert_eq!(
        s.adjust(&sample()),
        GenericCongAvoidMeasurements {
            acked: 25,
            was_timeout: true,
            sacked: 1,
            loss: 5,
            rtt: 250,
            inflight: 9
        }
    );
    s.folded = 3;
    let r = s.adjust(&sample());
    assert_eq!((r.acked, r.sacked), (33, 2));
    s.folded = 101;
    let r = s.adjust(&sample());
    assert_eq!((r.acked, r.sacked), (0, 0));
}

#[test]
fn one_event_per_snapshot_needs_no_compensation() {
    let mut s = state(true);
    s.folded = 1;
    assert_eq!(s.adjust(&sample()), sample());
    s.folded = 0;
    assert_eq!(s.adjust(&sample()), sample());
}

#[test]
fn compensation_counts_the_events_of_the_last_flush() {
    let mut s = state(true);
    for acked in [10u32, 20, 30, 40, 50] {
        s.record_event(&RawEvent {
            acked,
            sacked: 2,
            loss: 0,
            rtt: 100,
            inflight: 1,
            was_timeout: false,
        });
    }
    let m = s.flush(10);
    assert_eq!(m.acked, 150);
    let adjusted = s.adjust(&m);
    assert_eq!(adjusted.acked, 30);
    assert_eq!(adjusted.sacked, 2);
    assert_eq!(s.adjust(&m), adjusted);
}
