use framehost::{FrameDriver, RunError, RunnerState, StreamEvent, TimeSource};

const NEVER_DONE_GUEST: &str = r#"
(module
  (memory (export "memory") 1)
  (func (export "is_done") (param i32) (result i32) i32.const 0)
  (func (export "next_frame") (param i32) (result i32) i32.const 0))
"#;

const DONE_AT_ZERO_GUEST: &str = r#"
(module
  (memory (export "memory") 1)
  (func (export "is_done") (param i32) (result i32) i32.const 1)
  (func (export "next_frame") (param i32) (result i32) i32.const 0))
"#;

const DONE_AT_THREE_GUEST: &str = r#"
(module
  (memory (export "memory") 1)
  (func (export "is_done") (param i32) (result i32)
    local.get 0
    i32.const 3
    i32.ge_u)
  (func (export "next_frame") (param i32) (result i32) i32.const 0))
"#;

const DONE_AT_HUNDRED_GUEST: &str = r#"
(module
  (memory (export "memory") 1)
  (func (export "is_done") (param i32) (result i32)
    local.get 0
    i32.const 100
    i32.ge_u)
  (func (export "next_frame") (param i32) (result i32) i32.const 0))
"#;

const UNIXTIME_GUEST: &str = r#"
(module
  (import "env" "unixtime" (func $unixtime (result i64)))
  (memory (export "memory") 1)
  (func (export "is_done") (param i32) (result i32)
    call $unixtime
    drop
    i32.const 1)
  (func (export "next_frame") (param i32) (result i32) i32.const 0))
"#;

const CLOCK_GATED_GUEST: &str = r#"
(module
  (import "env" "unixtime" (func $unixtime (result i64)))
  (memory (export "memory") 1)
  (func (export "is_done") (param i32) (result i32)
    call $unixtime
    i64.const 42
    i64.eq)
  (func (export "next_frame") (param i32) (result i32) i32.const 0))
"#;

fn kind_names(events: &[StreamEvent]) -> Vec<&'static str> {
    events.iter().map(|e| e.kind_name()).collect()
}

#[test]
fn scenario_done_at_zero_emits_only_end() {
    let mut driver = FrameDriver::load(DONE_AT_ZERO_GUEST, TimeSource::System).unwrap();
    let (events, fault) = driver.collect_events();
    assert!(fault.is_none());
    assert_eq!(kind_names(&events), vec!["end"]);
}

#[test]
fn scenario_never_done_emits_101_updates_then_end() {
    let mut driver = FrameDriver::load(NEVER_DONE_GUEST, TimeSource::System).unwrap();
    let (events, fault) = driver.collect_events();
    assert!(fault.is_none());
    assert_eq!(events.len(), 102);
    for event in &events[..101] {
        assert_eq!(event.kind_name(), "screen_update");
    }
    assert_eq!(events[101].kind_name(), "end");
}

#[test]
fn scenario_completion_at_three_emits_three_updates_then_end() {
    let mut driver = FrameDriver::load(DONE_AT_THREE_GUEST, TimeSource::System).unwrap();
    let (events, fault) = driver.collect_events();
    assert!(fault.is_none());
    assert_eq!(kind_names(&events), vec![
        "screen_update",
        "screen_update",
        "screen_update",
        "end",
    ]);
}

#[test]
fn scenario_completion_at_the_cap_emits_100_updates_then_end() {
    let mut driver = FrameDriver::load(DONE_AT_HUNDRED_GUEST, TimeSource::System).unwrap();
    let (events, fault) = driver.collect_events();
    assert!(fault.is_none());
    assert_eq!(events.len(), 101);
    for event in &events[..100] {
        assert_eq!(event.kind_name(), "screen_update");
    }
    assert_eq!(events[100].kind_name(), "end");
}

#[test]
fn driver_starts_at_frame_zero() {
    let driver = FrameDriver::load(NEVER_DONE_GUEST, TimeSource::System).unwrap();
    assert!(matches!(driver.state(), RunnerState::Running(0)));
}

#[test]
fn driver_is_fused_after_end() {
    let mut driver = FrameDriver::load(DONE_AT_ZERO_GUEST, TimeSource::System).unwrap();
    let (_, fault) = driver.collect_events();
    assert!(fault.is_none());
    assert!(matches!(driver.state(), RunnerState::Ended));
    assert!(driver.next().is_none());
    assert!(driver.next().is_none());
}

#[test]
fn unixtime_import_is_supplied_by_the_host() {
    let mut driver = FrameDriver::load(UNIXTIME_GUEST, TimeSource::System).unwrap();
    let (events, fault) = driver.collect_events();
    assert!(fault.is_none());
    assert_eq!(kind_names(&events), vec!["end"]);
}

#[test]
fn fixed_time_source_makes_runs_deterministic() {
    let mut done_driver = FrameDriver::load(CLOCK_GATED_GUEST, TimeSource::Fixed(42)).unwrap();
    let (events, fault) = done_driver.collect_events();
    assert!(fault.is_none());
    assert_eq!(kind_names(&events), vec!["end"]);

    let mut running_driver = FrameDriver::load(CLOCK_GATED_GUEST, TimeSource::Fixed(7)).unwrap();
    let (events, fault) = running_driver.collect_events();
    assert!(fault.is_none());
    assert_eq!(events.len(), 102);
    assert_eq!(events[0].kind_name(), "screen_update");
    assert_eq!(events[101].kind_name(), "end");
}

#[test]
fn terminal_event_carries_no_payload() {
    let mut driver = FrameDriver::load(DONE_AT_ZERO_GUEST, TimeSource::System).unwrap();
    let (events, _) = driver.collect_events();
    assert!(events[0].payload().is_none());
}

#[test]
fn error_descriptions_name_each_failure() {
    assert_eq!(RunError::GuestTrap.wire_name(), "error");
    assert_eq!(RunError::CompileError.describe(), "invalid module source");
    assert_eq!(RunError::LinkError.describe(), "missing import or export");
    assert_eq!(RunError::GuestTrap.describe(), "guest fault");
}
