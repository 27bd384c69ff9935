use generic_cong_avoid::config::{Config, GenericCongAvoidConfigReport, GenericCongAvoidConfigSS};
use generic_cong_avoid::flow::{FlowState, GrowthPhase};
use generic_cong_avoid::growth::{mirror, rapid_step, Action};
use generic_cong_avoid::measurements::GenericCongAvoidMeasurements;

fn config(ss: GenericCongAvoidConfigSS, use_compensation: bool) -> Config {
    Config {
        deficit_timeout: 2,
        init_cwnd: 10,
        report_option: GenericCongAvoidConfigReport::Ack,
        ss,
        ss_thresh: 100,
        use_compensation,
    }
}

fn snapshot(acked: u32, loss: u32, inflight: u32, was_timeout: bool) -> GenericCongAvoidMeasurements {
    GenericCongAvoidMeasurements { acked, was_timeout, sacked: 6, loss, rtt: 100, inflight }
}

#[test]
fn rapid_step_doubles_and_saturates() {
    assert_eq!(rapid_step(10), 20);
    assert_eq!(rapid_step(1), 2);
    assert_eq!(rapid_step(0), 0);
    assert_eq!(rapid_step(0x7fff_ffff), 0xffff_fffe);
    assert_eq!(rapid_step(0x8000_0000), u32::MAX);
    assert_eq!(rapid_step(u32::MAX), u32::MAX);
}

#[test]
fn mirror_takes_inflight_unless_it_is_zero() {
    assert_eq!(mirror(10, 35), 35);
    assert_eq!(mirror(10, 1), 1);
    assert_eq!(mirror(10, 0), 10);
}

#[test]
fn driver_doubles_the_window_while_it_owns_rapid_growth() {
    let s = FlowState::new(config(GenericCongAvoidConfigSS::Ccp, false), 0);
    assert_eq!(s.plan(&snapshot(30, 0, 3, false)), Action::SetWindow(20));
    assert_eq!(s.plan(&snapshot(30, 2, 3, false)), Action::SetWindow(20));
    assert_eq!(s.plan(&snapshot(0, 0, 0, false)), Action::SetWindow(20));
}

#[test]
fn driver_mirrors_the_window_while_the_datapath_owns_rapid_growth() {
    let s = FlowState::new(config(GenericCongAvoidConfigSS::Datapath, false), 0);
    assert_eq!(s.plan(&snapshot(30, 0, 64, false)), Action::SetWindow(64));
    assert_eq!(s.plan(&snapshot(30, 0, 0, false)), Action::SetWindow(10));
}

#[test]
fn steady_state_hands_each_snapshot_to_one_side() {
    let mut s = FlowState::new(config(GenericCongAvoidConfigSS::Ccp, false), 0);
    s.phase = GrowthPhase::SteadyState;
    let clean = snapshot(30, 0, 3, false);
    let lossy = snapshot(30, 1, 3, false);
    assert_eq!(s.plan(&clean), Action::Increase(clean));
    assert_eq!(s.plan(&lossy), Action::Reduction(lossy));
}

#[test]
fn timeout_goes_before_everything_else() {
    let timed_out = snapshot(30, 0, 3, true);
    let mut s = FlowState::new(config(GenericCongAvoidConfigSS::Datapath, false), 0);
    assert_eq!(s.plan(&timed_out), Action::Timeout(timed_out));
    s.phase = GrowthPhase::SteadyState;
    assert_eq!(s.plan(&timed_out), Action::Timeout(timed_out));
    let both = snapshot(30, 9, 3, true);
    assert_eq!(s.plan(&both), Action::Timeout(both));
}

#[test]
fn policy_sees_the_compensated_snapshot() {
    let mut s = FlowState::new(config(GenericCongAvoidConfigSS::Ccp, true), 0);
    s.phase = GrowthPhase::SteadyState;
    s.folded = 3;
    let m = snapshot(30, 0, 3, false);
    let scaled = GenericCongAvoidMeasurements { acked: 10, sacked: 2, ..m };
    assert_eq!(s.plan(&m), Action::Increase(scaled));
    let lossy = snapshot(31, 4, 3, false);
    assert_eq!(
        s.plan(&lossy),
        Action::Reduction(GenericCongAvoidMeasurements { acked: 10, sacked: 2, ..lossy })
    );
}

#[test]
fn phase_changes_at_the_first_window_at_the_threshold() {
    let mut s = FlowState::new(config(GenericCongAvoidConfigSS::Ccp, false), 0);
    let m = snapshot(30, 0, 3, false);
    let mut seen = Vec::new();
    for w in [20u32, 40, 99, 100, 50, 1, 300] {
        assert!(s.settle(&m, w));
        assert_eq!(s.cwnd, w);
        seen.push(s.phase);
    }
    let (rapid, steady) = (GrowthPhase::RapidGrowth, GrowthPhase::SteadyState);
    assert_eq!(
        seen,
        vec![rapid, rapid, rapid, steady, steady, steady, steady]
    );
}

#[test]
fn timeout_and_reset_lead_back_to_rapid_growth() {
    let mut s = FlowState::new(config(GenericCongAvoidConfigSS::Ccp, false), 0);
    assert!(s.settle(&snapshot(30, 0, 3, false), 160));
    assert_eq!(s.phase, GrowthPhase::SteadyState);
    assert!(s.settle(&snapshot(0, 0, 3, true), 500));
    assert_eq!(s.phase, GrowthPhase::RapidGrowth);
    assert_eq!(s.cwnd, 500);
    assert!(s.settle(&snapshot(30, 0, 3, false), 100));
    assert_eq!(s.phase, GrowthPhase::SteadyState);
    assert!(s.restart(10));
    assert_eq!(s.phase, GrowthPhase::RapidGrowth);
    assert_eq!(s.cwnd, 10);
}

#[test]
fn window_of_zero_is_refused() {
    let mut s = FlowState::new(config(GenericCongAvoidConfigSS::Ccp, false), 0);
    let before = s;
    assert!(!s.settle(&snapshot(30, 0, 3, false), 0));
    assert_eq!(s, before);
    assert!(!s.restart(0));
    assert_eq!(s, before);
}
