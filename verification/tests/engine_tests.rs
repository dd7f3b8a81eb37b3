use log_engine::engine::{Engine, EngineState, LogError, QUEUE_CAPACITY};
use log_engine::rotation::FileSize;

fn tags(names: &[&str]) -> Vec<String> {
    names.iter().map(|t| t.to_string()).collect()
}

fn running_engine(max: FileSize) -> Engine {
    let mut e = Engine::new();
    e.configure_rotating_file("log".to_string(), max, true, 0)
        .expect("configuration with a ready directory succeeds");
    e.start(10, 1).expect("start from a configured engine succeeds");
    e
}

#[test]
fn fresh_engine_is_uninitialized() {
    let e = Engine::new();
    assert_eq!(e.engine_state(), EngineState::Uninitialized);
    assert_eq!(e.queue_len(), 0);
    assert_eq!(e.dropped_count(), 0);
}

#[test]
fn configure_moves_to_configured() {
    let mut e = Engine::new();
    assert!(e.configure_rotating_file("log".to_string(), FileSize::Mb(100), true, 0).is_ok());
    assert_eq!(e.engine_state(), EngineState::Configured);
}

#[test]
fn configure_fails_without_directory() {
    let mut e = Engine::new();
    let r = e.configure_rotating_file("log".to_string(), FileSize::Mb(100), false, 0);
    assert_eq!(r, Err(LogError::Config));
    assert_eq!(e.engine_state(), EngineState::Uninitialized);
    // A failed configuration must keep the engine out of a file-backed run.
    assert!(e.start(10, 1).is_ok());
    let (cmds, _) = e.flush(1000);
    assert!(cmds.is_empty());
}

#[test]
fn start_after_flush_is_refused() {
    let mut e = running_engine(FileSize::Mb(1));
    e.flush(0);
    assert_eq!(e.start(10, 1), Err(LogError::EngineStopped));
}

#[test]
fn log_after_flush_is_refused() {
    let mut e = running_engine(FileSize::Mb(1));
    e.flush(0);
    let r = e.log(tags(&["a"]), "m".to_string(), "info".to_string(), 0);
    assert!(matches!(r, Err(LogError::EngineStopped)));
}

#[test]
fn configure_after_flush_is_refused() {
    let mut e = running_engine(FileSize::Mb(1));
    e.flush(0);
    let r = e.configure_rotating_file("log".to_string(), FileSize::Mb(1), true, 0);
    assert_eq!(r, Err(LogError::EngineStopped));
}

#[test]
fn log_normalises_level_and_queues() {
    let mut e = running_engine(FileSize::Mb(100));
    let out = e.log(tags(&["auth", "info"]), "user joined".to_string(), "INFO".to_string(), 5)
        .expect("a running engine accepts a record");
    assert!(out.echo.is_none());
    assert!(out.trigger.is_none());
    assert_eq!(e.queue_len(), 1);
}

#[test]
fn log_before_start_buffers_in_memory() {
    let mut e = Engine::new();
    let out = e.log(tags(&["a"]), "m".to_string(), "info".to_string(), 0);
    assert!(out.is_ok());
    assert_eq!(e.queue_len(), 1);
}

#[test]
fn console_echo_returns_the_formatted_line() {
    let mut e = running_engine(FileSize::Mb(100));
    e.set_console_echo(true);
    let out = e.log(tags(&["auth"]), "hi".to_string(), "Info".to_string(), 0).unwrap();
    assert_eq!(out.echo.as_deref(), Some("auth: info -> hi\n"));
    e.set_console_echo(false);
    let out = e.log(tags(&["auth"]), "hi".to_string(), "Info".to_string(), 0).unwrap();
    assert!(out.echo.is_none());
}

#[test]
fn queue_saturation_reports_queue_full() {
    let mut e = running_engine(FileSize::Mb(100));
    for i in 0..QUEUE_CAPACITY {
        assert!(e.log(tags(&["t"]), "m".to_string(), "info".to_string(), i as u64).is_ok());
    }
    let r = e.log(tags(&["t"]), "m".to_string(), "info".to_string(), 0);
    assert!(matches!(r, Err(LogError::QueueFull)));
    assert_eq!(e.queue_len(), QUEUE_CAPACITY);
}

#[test]
fn wake_policy_on_interval_or_batch() {
    let mut e = running_engine(FileSize::Mb(100));
    e.start(50, 3).unwrap();
    assert!(e.should_wake(50));
    assert!(e.should_wake(80));
    assert!(!e.should_wake(49));
    e.log(tags(&["a"]), "m".to_string(), "info".to_string(), 0).unwrap();
    e.log(tags(&["a"]), "m".to_string(), "info".to_string(), 1).unwrap();
    assert!(!e.should_wake(0));
    e.log(tags(&["a"]), "m".to_string(), "info".to_string(), 2).unwrap();
    assert!(e.should_wake(0));
}

#[test]
fn drain_step_takes_a_batch_in_order() {
    let mut e = running_engine(FileSize::Mb(100));
    e.log(tags(&["a"]), "one".to_string(), "info".to_string(), 0).unwrap();
    e.log(tags(&["a"]), "two".to_string(), "info".to_string(), 1).unwrap();
    e.log(tags(&["a"]), "three".to_string(), "info".to_string(), 2).unwrap();
    let cmds = e.drain_step(2);
    assert_eq!(cmds.len(), 2);
    assert_eq!(cmds[0].line, "a: info -> one\n");
    assert_eq!(cmds[1].line, "a: info -> two\n");
    assert_eq!(e.queue_len(), 1);
    let cmds = e.drain_step(10);
    assert_eq!(cmds.len(), 1);
    assert_eq!(cmds[0].line, "a: info -> three\n");
    assert_eq!(e.queue_len(), 0);
}

#[test]
fn flush_persists_everything_within_allowance() {
    let mut e = running_engine(FileSize::Mb(100));
    let n: usize = 5;
    let m: usize = 4;
    for p in 0..n {
        for i in 0..m {
            e.log(
                tags(&["producer", "worker"]),
                format!("message {} {}", p, i),
                "info".to_string(),
                (p * m + i) as u64,
            )
            .unwrap();
        }
    }
    assert_eq!(e.queue_len(), n * m);
    let (cmds, report) = e.flush(1000);
    assert_eq!(cmds.len(), n * m);
    assert_eq!(report.flushed, (n * m) as u64);
    assert_eq!(report.dropped, 0);
    assert_eq!(e.engine_state(), EngineState::Stopped);
    assert_eq!(e.queue_len(), 0);
    for (i, cmd) in cmds.iter().enumerate() {
        let expected = format!("producer:worker: info -> message {} {}\n", i / m, i % m);
        assert_eq!(cmd.line, expected);
        assert!(!cmd.rotate);
        assert_eq!(cmd.sequence, 0);
    }
}

#[test]
fn flush_with_zero_allowance_drops_everything() {
    let mut e = running_engine(FileSize::Mb(100));
    e.log(tags(&["a"]), "one".to_string(), "info".to_string(), 0).unwrap();
    e.log(tags(&["a"]), "two".to_string(), "info".to_string(), 1).unwrap();
    e.log(tags(&["a"]), "three".to_string(), "info".to_string(), 2).unwrap();
    let (cmds, report) = e.flush(0);
    assert!(cmds.is_empty());
    assert_eq!(report.flushed, 0);
    assert_eq!(report.dropped, 3);
    assert!(report.dropped > 0);
    assert_eq!(e.engine_state(), EngineState::Stopped);
}

#[test]
fn flush_with_partial_allowance_keeps_a_prefix_and_drops_the_rest() {
    let mut e = running_engine(FileSize::Mb(100));
    for i in 0..5u64 {
        e.log(tags(&["a"]), format!("m{}", i), "info".to_string(), i).unwrap();
    }
    let (cmds, report) = e.flush(2);
    assert_eq!(cmds.len(), 2);
    assert_eq!(cmds[0].line, "a: info -> m0\n");
    assert_eq!(cmds[1].line, "a: info -> m1\n");
    assert_eq!(report.flushed, 2);
    assert_eq!(report.dropped, 3);
}

#[test]
fn flush_reports_earlier_batch_losses() {
    let mut e = running_engine(FileSize::Mb(100));
    e.note_batch_dropped(7);
    let (_, report) = e.flush(1000);
    assert_eq!(report.flushed, 0);
    assert_eq!(report.dropped, 7);
}

#[test]
fn trigger_failures_are_counted_and_isolated() {
    let mut e = running_engine(FileSize::Mb(100));
    assert_eq!(e.trigger_failure_count(), 0);
    e.note_trigger_failure();
    e.note_trigger_failure();
    assert_eq!(e.trigger_failure_count(), 2);
    let out = e.log(tags(&["a"]), "m".to_string(), "info".to_string(), 0);
    assert!(out.is_ok());
}

#[test]
fn rotation_happens_exactly_at_the_overflowing_record() {
    // One kilobyte limit; each line is 409 bytes: "t: i -> " + 400 + "\n".
    let mut e = running_engine(FileSize::Kb(1));
    let msg = "a".repeat(400);
    for i in 0..3 {
        e.log(tags(&["t"]), msg.clone(), "i".to_string(), i).unwrap();
    }
    let (cmds, report) = e.flush(100);
    assert_eq!(report.dropped, 0);
    assert_eq!(cmds.len(), 3);
    // 409 and 818 stay within 1024; 1227 would exceed it.
    assert!(!cmds[0].rotate);
    assert!(!cmds[1].rotate);
    assert!(cmds[2].rotate);
    assert_eq!(cmds[0].sequence, 0);
    assert_eq!(cmds[1].sequence, 0);
    assert_eq!(cmds[2].sequence, 1);
    // The overflowing record is the first line of the new file, never split.
    assert_eq!(cmds[2].line, format!("t: i -> {}\n", msg));
}

#[test]
fn oversized_record_rotates_before_landing_whole() {
    let mut e = running_engine(FileSize::Kb(1));
    let msg = "a".repeat(2000);
    e.log(tags(&["t"]), msg.clone(), "i".to_string(), 0).unwrap();
    e.log(tags(&["t"]), "small".to_string(), "i".to_string(), 1).unwrap();
    let (cmds, _) = e.flush(100);
    assert_eq!(cmds.len(), 2);
    assert!(cmds[0].rotate);
    assert_eq!(cmds[0].sequence, 1);
    assert_eq!(cmds[0].line, format!("t: i -> {}\n", msg));
    // The oversized line itself overflows its fresh file, so the next
    // record rotates again.
    assert!(cmds[1].rotate);
    assert_eq!(cmds[1].sequence, 2);
}

#[test]
fn reconfiguring_replaces_the_policy() {
    let mut e = running_engine(FileSize::Kb(1));
    e.configure_rotating_file("audit".to_string(), FileSize::Mb(100), true, 0).unwrap();
    assert_eq!(e.engine_state(), EngineState::Running);
    let msg = "a".repeat(2000);
    e.log(tags(&["t"]), msg, "i".to_string(), 0).unwrap();
    let (cmds, _) = e.flush(100);
    assert_eq!(cmds.len(), 1);
    assert!(!cmds[0].rotate, "the new hundred-megabyte limit holds");
}
