use test_bno080_ehal::cadence::{
    loop_interval_ms, IMU_REPORTING_INTERVAL_MS, IMU_REPORTING_RATE_HZ, MESSAGE_TIMEOUT_MS,
};
use test_bno080_ehal::controller::{Action, Controller, Event, Stage};

fn started() -> Controller {
    let mut c = Controller::new();
    assert_eq!(c.step(Event::Started), Action::InitImu);
    assert_eq!(c.step(Event::Done), Action::EnableRotationVector(5));
    assert_eq!(c.step(Event::Done), Action::AnnounceLoopInterval(5));
    assert_eq!(c.step(Event::Done), Action::SetLedLow);
    assert_eq!(c.step(Event::Done), Action::HandleMessages(1));
    c
}

#[test]
fn reporting_interval_follows_rate() {
    assert_eq!(IMU_REPORTING_RATE_HZ, 200);
    assert_eq!(IMU_REPORTING_INTERVAL_MS, 5);
    assert_eq!(MESSAGE_TIMEOUT_MS, 1);
}

#[test]
fn loop_interval_narrows_to_a_byte() {
    assert_eq!(loop_interval_ms(5), 5);
    assert_eq!(loop_interval_ms(255), 255);
    assert_eq!(loop_interval_ms(256), 0);
    assert_eq!(loop_interval_ms(300), 44);
    assert_eq!(loop_interval_ms(u16::MAX), 255);
}

#[test]
fn new_controller_waits_for_start() {
    let c = Controller::new();
    assert_eq!(c.stage, Stage::Boot);
    assert_eq!(c.report_interval_ms, 5);
    assert_eq!(c.loop_interval_ms, 5);
    assert_eq!(c.led_high, None);
    assert!(c.accepts_event(&Event::Started));
    assert!(!c.accepts_event(&Event::Done));
    assert!(!c.accepts_event(&Event::Handled(0)));
}

#[test]
fn startup_sequence() {
    let c = started();
    assert_eq!(c.stage, Stage::AwaitMessages);
    assert_eq!(c.led_high, Some(false));
}

#[test]
fn init_failure_halts_for_good() {
    let mut c = Controller::new();
    assert_eq!(c.step(Event::Started), Action::InitImu);
    assert_eq!(c.step(Event::Failed), Action::Halt);
    assert_eq!(c.stage, Stage::Halted);
    assert!(c.accepts_event(&Event::Done));
    assert_eq!(c.step(Event::Done), Action::Halt);
    assert_eq!(c.step(Event::Handled(3)), Action::Halt);
    assert_eq!(c.stage, Stage::Halted);
}

#[test]
fn enable_failure_halts() {
    let mut c = Controller::new();
    c.step(Event::Started);
    assert_eq!(c.step(Event::Done), Action::EnableRotationVector(5));
    assert_eq!(c.step(Event::Failed), Action::Halt);
    assert_eq!(c.stage, Stage::Halted);
}

#[test]
fn led_result_is_ignored() {
    let mut c = Controller::new();
    c.step(Event::Started);
    c.step(Event::Done);
    c.step(Event::Done);
    assert_eq!(c.step(Event::Done), Action::SetLedLow);
    assert!(c.accepts_event(&Event::Failed));
    assert_eq!(c.step(Event::Failed), Action::HandleMessages(1));
}

#[test]
fn poll_with_messages_reports_them() {
    let mut c = started();
    assert!(c.accepts_event(&Event::Handled(7)));
    assert!(!c.accepts_event(&Event::Done));
    assert_eq!(c.step(Event::Handled(7)), Action::ReportMessages(7));
    assert_eq!(c.step(Event::Done), Action::ToggleLed);
    assert_eq!(c.led_high, Some(true));
    assert_eq!(c.step(Event::Done), Action::Delay(5));
    assert_eq!(c.step(Event::Done), Action::HandleMessages(1));
    assert_eq!(c.stage, Stage::AwaitMessages);
}

#[test]
fn poll_without_messages_reports_nothing() {
    let mut c = started();
    assert_eq!(c.step(Event::Handled(0)), Action::ToggleLed);
    assert_eq!(c.led_high, Some(true));
    assert_eq!(c.step(Event::Failed), Action::Delay(5));
    assert_eq!(c.step(Event::Done), Action::HandleMessages(1));
}

#[test]
fn led_parity_over_passes() {
    let mut c = started();
    let counts = [0u32, 2, 0, 9, 1];
    for (i, n) in counts.iter().enumerate() {
        let mut a = c.step(Event::Handled(*n));
        if *n > 0 {
            assert_eq!(a, Action::ReportMessages(*n));
            a = c.step(Event::Done);
        }
        assert_eq!(a, Action::ToggleLed);
        assert_eq!(c.step(Event::Done), Action::Delay(5));
        assert_eq!(c.step(Event::Done), Action::HandleMessages(1));
        assert_eq!(c.led_high, Some(i % 2 == 0));
    }
    assert_eq!(c.led_high, Some(true));
}
