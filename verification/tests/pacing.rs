use framehost::{FrameDriver, Pacer, StreamEvent, TimeSource, FRAME_PERIOD_MS};
use std::time::Instant;

const NEVER_DONE_GUEST: &str = r#"
(module
  (memory (export "memory") 1)
  (func (export "is_done") (param i32) (result i32) i32.const 0)
  (func (export "next_frame") (param i32) (result i32) i32.const 0))
"#;

#[test]
fn first_frame_goes_out_unthrottled() {
    let pacer = Pacer::new(FRAME_PERIOD_MS);
    assert_eq!(pacer.delay_before_data_ms(12345), 0);
}

#[test]
fn pacer_fills_the_gap_up_to_one_period() {
    let mut pacer = Pacer::new(100);
    pacer.record_emit(1000);
    assert_eq!(pacer.delay_before_data_ms(1000), 100);
    assert_eq!(pacer.delay_before_data_ms(1030), 70);
    assert_eq!(pacer.delay_before_data_ms(1099), 1);
    assert_eq!(pacer.delay_before_data_ms(1100), 0);
    assert_eq!(pacer.delay_before_data_ms(5000), 0);
}

#[test]
fn pacer_waits_a_full_period_when_the_clock_goes_backwards() {
    let mut pacer = Pacer::new(100);
    pacer.record_emit(1000);
    assert_eq!(pacer.delay_before_data_ms(900), 100);
}

#[test]
fn pacer_tracks_the_latest_emission() {
    let mut pacer = Pacer::new(100);
    pacer.record_emit(1000);
    pacer.record_emit(2000);
    assert_eq!(pacer.delay_before_data_ms(2050), 50);
}

#[test]
fn paced_full_run_spaces_frames_and_takes_about_ten_seconds() {
    let mut driver = FrameDriver::load(NEVER_DONE_GUEST, TimeSource::System).unwrap();
    let mut pacer = Pacer::new(FRAME_PERIOD_MS);
    let start = Instant::now();
    let mut emit_times_ms: Vec<u64> = Vec::new();
    let runtime = tokio::runtime::Builder::new_current_thread()
        .enable_time()
        .build()
        .unwrap();
    runtime.block_on(async {
        loop {
            match driver.next() {
                None => break,
                Some(Err(_)) => panic!("the guest must not fault"),
                Some(Ok(StreamEvent::End)) => break,
                Some(Ok(StreamEvent::ScreenUpdate(_))) => {
                    let now_ms = start.elapsed().as_millis() as u64;
                    let delay = pacer.delay_before_data_ms(now_ms);
                    if delay > 0 {
                        tokio::time::sleep(std::time::Duration::from_millis(delay)).await;
                    }
                    let emitted_ms = start.elapsed().as_millis() as u64;
                    pacer.record_emit(emitted_ms);
                    emit_times_ms.push(emitted_ms);
                },
            }
        }
    });
    assert_eq!(emit_times_ms.len(), 101);
    for pair in emit_times_ms.windows(2) {
        assert!(pair[1] - pair[0] >= 95, "spacing under the period: {:?}", pair);
    }
    let total = emit_times_ms[100] - emit_times_ms[0];
    assert!(total >= 9900, "run finished too fast: {} ms", total);
    assert!(total <= 15000, "run took far too long: {} ms", total);
}
