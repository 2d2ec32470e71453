use serial_test::execution::{Completion, Execution, Phase, Resolution, Step};
use serial_test::named_lock::Mode;
use serial_test::registry::NameRegistry;
use serial_test::wait_policy::{Span, WaitPolicy};

/// How a callback ended, as a driver sees it once the ending is captured.
enum Ending<T> {
    Value(T),
    Panic(&'static str),
}

/// What a driver hands on to its caller.
#[derive(Debug, PartialEq)]
enum Surfaced<T> {
    Delivered(T),
    Raised(&'static str),
}

/// A driver of one guarded call on a lock that is free: it acquires, runs
/// the callback with the table at hand, releases, and hands on.
fn guarded<T>(
    registry: &mut NameRegistry,
    name: &str,
    mode: Mode,
    callback: impl FnOnce(&NameRegistry) -> Ending<T>,
) -> Surfaced<T> {
    let mut execution = Execution::begin(registry, name, mode);
    let step = execution
        .attempt(registry, &WaitPolicy::default(), Span::from_secs(0))
        .unwrap();
    assert_eq!(step, Step::Invoke);
    let ending = callback(registry);
    let completion = match ending {
        Ending::Value(_) => Completion::Returned,
        Ending::Panic(_) => Completion::Panicked,
    };
    let resolution = execution.finish(registry, completion);
    assert_eq!(execution.phase(), Phase::Done);
    match (resolution, ending) {
        (Resolution::Deliver, Ending::Value(value)) => Surfaced::Delivered(value),
        (Resolution::Unwind, Ending::Panic(payload)) => Surfaced::Raised(payload),
        _ => unreachable!(),
    }
}

fn parallel_count(registry: &NameRegistry, name: &str) -> u32 {
    registry.lock(registry.find(name).unwrap()).parallel_count()
}

fn is_locked(registry: &NameRegistry, name: &str) -> bool {
    registry.lock(registry.find(name).unwrap()).is_locked()
}

#[test]
fn parallel_mode_is_released_when_the_callback_panics() {
    let mut registry = NameRegistry::new();
    let surfaced = guarded(&mut registry, "p", Mode::Parallel, |table| -> Ending<()> {
        assert_eq!(parallel_count(table, "p"), 1);
        Ending::Panic("assertion failed")
    });
    assert_eq!(surfaced, Surfaced::Raised("assertion failed"));
    assert_eq!(parallel_count(&registry, "p"), 0);
}

#[test]
fn parallel_mode_is_released_when_a_fallible_callback_panics() {
    let mut registry = NameRegistry::new();
    let surfaced = guarded(
        &mut registry,
        "q",
        Mode::Parallel,
        |_| -> Ending<Result<(), String>> { Ending::Panic("assertion failed") },
    );
    assert_eq!(surfaced, Surfaced::Raised("assertion failed"));
    assert_eq!(parallel_count(&registry, "q"), 0);
}

#[test]
fn callback_result_is_delivered_after_release() {
    let mut registry = NameRegistry::new();
    let surfaced = guarded(&mut registry, "deliver", Mode::Parallel, |table| {
        assert_eq!(parallel_count(table, "deliver"), 1);
        Ending::Value(41 + 1)
    });
    assert_eq!(surfaced, Surfaced::Delivered(42));
    assert_eq!(parallel_count(&registry, "deliver"), 0);
}

#[test]
fn callback_error_passes_through_unchanged() {
    let mut registry = NameRegistry::new();
    let surfaced = guarded(&mut registry, "fallible", Mode::Serial, |table| {
        assert!(is_locked(table, "fallible"));
        Ending::Value(Err::<(), String>("no luck".to_string()))
    });
    assert_eq!(surfaced, Surfaced::Delivered(Err("no luck".to_string())));
    assert!(!is_locked(&registry, "fallible"));
}

#[test]
fn serial_panic_releases_and_the_next_serial_gets_in() {
    let mut registry = NameRegistry::new();
    let surfaced = guarded(&mut registry, "d", Mode::Serial, |table| -> Ending<()> {
        assert!(is_locked(table, "d"));
        Ending::Panic("boom")
    });
    assert_eq!(surfaced, Surfaced::Raised("boom"));
    assert!(!is_locked(&registry, "d"));
    let surfaced = guarded(&mut registry, "d", Mode::Serial, |table| {
        Ending::Value(is_locked(table, "d"))
    });
    assert_eq!(surfaced, Surfaced::Delivered(true));
    assert!(!is_locked(&registry, "d"));
}

#[test]
fn begin_resolves_the_name_without_acquiring() {
    let mut registry = NameRegistry::new();
    let execution = Execution::begin(&mut registry, "x", Mode::Serial);
    assert_eq!(execution.phase(), Phase::Acquiring);
    assert_eq!(execution.mode(), Mode::Serial);
    assert_eq!(execution.handle(), 0);
    assert_eq!(registry.len(), 1);
    assert!(!registry.lock(0).is_locked());
    let second = Execution::begin(&mut registry, "x", Mode::Parallel);
    assert_eq!(second.handle(), 0);
    assert_eq!(registry.len(), 1);
    let third = Execution::begin(&mut registry, "y", Mode::Parallel);
    assert_eq!(third.handle(), 1);
}

#[test]
fn two_parallel_executions_hold_together() {
    let mut registry = NameRegistry::new();
    let policy = WaitPolicy::default();
    let mut first = Execution::begin(&mut registry, "x", Mode::Parallel);
    let mut second = Execution::begin(&mut registry, "x", Mode::Parallel);
    let zero = Span::from_secs(0);
    assert_eq!(
        first.attempt(&mut registry, &policy, zero).unwrap(),
        Step::Invoke
    );
    assert_eq!(
        second.attempt(&mut registry, &policy, zero).unwrap(),
        Step::Invoke
    );
    assert_eq!(first.phase(), Phase::Holding);
    assert_eq!(second.phase(), Phase::Holding);
    assert_eq!(registry.lock(first.handle()).parallel_count(), 2);
    assert_eq!(
        first.finish(&mut registry, Completion::Returned),
        Resolution::Deliver
    );
    assert_eq!(registry.lock(second.handle()).parallel_count(), 1);
    assert_eq!(
        second.finish(&mut registry, Completion::Returned),
        Resolution::Deliver
    );
    assert_eq!(registry.lock(second.handle()).parallel_count(), 0);
    assert_eq!(first.phase(), Phase::Done);
    assert_eq!(second.phase(), Phase::Done);
}

#[test]
fn parallel_execution_waits_until_serial_is_released() {
    let mut registry = NameRegistry::new();
    let policy = WaitPolicy::default();
    let mut serial = Execution::begin(&mut registry, "x", Mode::Serial);
    let mut parallel = Execution::begin(&mut registry, "x", Mode::Parallel);
    assert_eq!(
        serial
            .attempt(&mut registry, &policy, Span::from_secs(0))
            .unwrap(),
        Step::Invoke
    );
    assert_eq!(
        parallel
            .attempt(&mut registry, &policy, Span::from_secs(0))
            .unwrap(),
        Step::Wait
    );
    assert_eq!(
        parallel
            .attempt(&mut registry, &policy, Span::from_secs(1))
            .unwrap(),
        Step::Wait
    );
    assert_eq!(parallel.phase(), Phase::Acquiring);
    assert_eq!(registry.lock(0).parallel_count(), 0);
    serial.finish(&mut registry, Completion::Returned);
    assert_eq!(
        parallel
            .attempt(&mut registry, &policy, Span::from_secs(2))
            .unwrap(),
        Step::Invoke
    );
    assert_eq!(registry.lock(0).parallel_count(), 1);
}

#[test]
fn blocked_serial_times_out_after_the_limit() {
    let mut registry = NameRegistry::new();
    let policy = WaitPolicy::new(Span::from_millis(50));
    let mut holder = Execution::begin(&mut registry, "y", Mode::Parallel);
    assert_eq!(
        holder
            .attempt(&mut registry, &policy, Span::from_millis(0))
            .unwrap(),
        Step::Invoke
    );
    let mut blocked = Execution::begin(&mut registry, "y", Mode::Serial);
    assert_eq!(
        blocked
            .attempt(&mut registry, &policy, Span::from_millis(0))
            .unwrap(),
        Step::Wait
    );
    assert_eq!(
        blocked
            .attempt(&mut registry, &policy, Span::from_millis(50))
            .unwrap(),
        Step::Wait
    );
    let timeout = blocked
        .attempt(&mut registry, &policy, Span::from_millis(51))
        .unwrap_err();
    assert_eq!(timeout.name, "y");
    assert_eq!(timeout.mode, Mode::Serial);
    assert_eq!(timeout.waited.secs(), 0);
    assert_eq!(timeout.waited.subsec_nanos(), 51_000_000);
    assert_eq!(blocked.phase(), Phase::Done);
    assert_eq!(registry.lock(holder.handle()).parallel_count(), 1);
    assert!(!registry.lock(holder.handle()).is_locked());
}

#[test]
fn a_late_attempt_times_out_even_on_an_idle_lock() {
    let mut registry = NameRegistry::new();
    let policy = WaitPolicy::new(Span::from_secs(1));
    let mut late = Execution::begin(&mut registry, "idle", Mode::Parallel);
    let timeout = late
        .attempt(&mut registry, &policy, Span::from_secs(2))
        .unwrap_err();
    assert_eq!(timeout.name, "idle");
    assert_eq!(timeout.mode, Mode::Parallel);
    assert_eq!(timeout.waited.secs(), 2);
    assert_eq!(registry.lock(0).parallel_count(), 0);
}

#[test]
fn finish_says_what_to_hand_on() {
    let mut registry = NameRegistry::new();
    let policy = WaitPolicy::default();
    let zero = Span::from_secs(0);
    let mut returned = Execution::begin(&mut registry, "x", Mode::Serial);
    returned.attempt(&mut registry, &policy, zero).unwrap();
    assert_eq!(
        returned.finish(&mut registry, Completion::Returned),
        Resolution::Deliver
    );
    let mut panicked = Execution::begin(&mut registry, "x", Mode::Serial);
    assert_eq!(
        panicked.attempt(&mut registry, &policy, zero).unwrap(),
        Step::Invoke
    );
    assert_eq!(
        panicked.finish(&mut registry, Completion::Panicked),
        Resolution::Unwind
    );
    assert!(!registry.lock(0).is_locked());
}

#[test]
fn a_return_is_delivered_and_a_panic_is_raised_again() {
    assert_eq!(Completion::Returned.resolution(), Resolution::Deliver);
    assert_eq!(Completion::Panicked.resolution(), Resolution::Unwind);
}
