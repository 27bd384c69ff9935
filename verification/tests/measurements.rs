use generic_cong_avoid::measurements::{GenericCongAvoidMeasurements, Measurements};

#[test]
fn record_carries_all_six_fields() {
    let m = GenericCongAvoidMeasurements {
        acked: 1,
        was_timeout: true,
        sacked: 2,
        loss: 3,
        rtt: 4,
        inflight: 5,
    };
    let r = Measurements::from_snapshot(&m);
    assert_eq!(r.acked, 1);
    assert!(r.was_timeout);
    assert_eq!(r.sacked, 2);
    assert_eq!(r.loss, 3);
    assert_eq!(r.rtt, 4);
    assert_eq!(r.inflight, 5);
}

#[test]
fn round_trip_through_the_record_changes_nothing() {
    let m = GenericCongAvoidMeasurements {
        acked: u32::MAX,
        was_timeout: false,
        sacked: 0,
        loss: 0x8000_0000,
        rtt: 123_456,
        inflight: 7,
    };
    assert_eq!(Measurements::from_snapshot(&m).to_snapshot(), m);
    let r = Measurements {
        acked: 9,
        was_timeout: true,
        sacked: u32::MAX,
        loss: 1,
        rtt: 0,
        inflight: u32::MAX - 1,
    };
    assert_eq!(Measurements::from_snapshot(&r.to_snapshot()), r);
}

#[test]
fn fields_are_not_swapped_on_the_way() {
    let r = Measurements {
        acked: 10,
        was_timeout: false,
        sacked: 20,
        loss: 30,
        rtt: 40,
        inflight: 50,
    };
    let m = r.to_snapshot();
    assert_eq!(
        (m.acked, m.was_timeout, m.sacked, m.loss, m.rtt, m.inflight),
        (10, false, 20, 30, 40, 50)
    );
}
