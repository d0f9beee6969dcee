use gpioirq::action::{Action, Effect, LogEntry, PairOrder, Severity, SignalTarget};
use gpioirq::dispatcher::dispatch;
use gpioirq::event::{InputEvent, EV_KEY, KEY_BATTERY, KEY_PROG1, KEY_PROG2};
use gpioirq::executor::{plan, ActionExecutor, Outcome, SHUTDOWN_DELAY_MS};
use gpioirq::gpiokey::{CommandLine, SIGNAL};

const TARGET_A: &str = "/sys/class/leds/power-pciusb/brightness";
const TARGET_B: &str = "/sys/class/leds/reset-usbh1/brightness";
const NOTE_A: &str = "shutdown \"power-pciusb\" command failed";
const NOTE_B: &str = "shutdown \"reset-usbh0\" command failed";

fn log(severity: Severity, message: &str) -> Effect {
    Effect::Log(LogEntry { severity, message: message.to_string() })
}

fn run(program: &str, args: [&str; 2], note: &str) -> Effect {
    Effect::Run {
        command: CommandLine {
            program: program.to_string(),
            args: args.iter().map(|a| a.to_string()).collect(),
        },
        failure_note: note.to_string(),
    }
}

fn signal(target: &str, level: SIGNAL, note: &str) -> Effect {
    Effect::Signal {
        target: SignalTarget { path: target.to_string() },
        level,
        failure_note: note.to_string(),
    }
}

fn stop_service() -> Effect {
    run("systemctl", ["stop", "appfare.service"], "shutdown appfare command failed")
}

fn shutdown_now() -> Effect {
    run("shutdown", ["-h", "now"], "shutdown command failed")
}

fn action_of(code: u16, value: i32) -> Action {
    dispatch(&InputEvent { event_type: EV_KEY, code, value }).unwrap()
}

/// Runs the executor to its end; the spawn with the given number (from 0) fails.
fn carry_out(action: Action, failing: &[usize]) -> Vec<Effect> {
    let mut executor = ActionExecutor::new(action);
    let mut issued = Vec::new();
    let mut last = Outcome::Done;
    let mut spawns = 0;
    while let Some(effect) = executor.advance(last) {
        last = Outcome::Done;
        if matches!(effect, Effect::Run { .. } | Effect::Signal { .. }) {
            if failing.contains(&spawns) {
                last = Outcome::Failed(format!("no such file {}", spawns));
            }
            spawns += 1;
        }
        issued.push(effect);
        assert!(issued.len() < 100);
    }
    assert!(executor.is_finished());
    issued
}

#[test]
fn the_delay_is_one_second() {
    assert_eq!(SHUTDOWN_DELAY_MS, 1000);
}

#[test]
fn plan_of_a_state_report_is_one_info_line() {
    assert_eq!(
        plan(Action::LogState("BATTERY ON".to_string())),
        vec![log(Severity::Info, "BATTERY ON")]
    );
    assert_eq!(plan(Action::LogState(String::new())), vec![log(Severity::Info, "")]);
}

#[test]
fn plan_of_the_shutdown_sequence() {
    assert_eq!(
        plan(Action::ShutdownSequence),
        vec![
            log(Severity::Warn, "KEY_PROG1 ON"),
            stop_service(),
            Effect::Delay(1000),
            shutdown_now(),
        ]
    );
}

#[test]
fn plan_of_asserting_the_pair_writes_a_before_b() {
    let action = Action::SetSignalPair(
        SignalTarget { path: "a".to_string() },
        SignalTarget { path: "b".to_string() },
        PairOrder::AssertAThenB,
    );
    assert_eq!(
        plan(action),
        vec![
            log(Severity::Warn, "ADC alert ON"),
            signal("a", SIGNAL::ZERO, NOTE_A),
            signal("b", SIGNAL::ZERO, NOTE_B),
        ]
    );
}

#[test]
fn plan_of_clearing_the_pair_writes_b_before_a() {
    let action = Action::SetSignalPair(
        SignalTarget { path: "a".to_string() },
        SignalTarget { path: "b".to_string() },
        PairOrder::ClearBThenA,
    );
    assert_eq!(
        plan(action),
        vec![
            log(Severity::Info, "ADC alert OFF"),
            signal("b", SIGNAL::ONE, NOTE_B),
            signal("a", SIGNAL::ONE, NOTE_A),
        ]
    );
}

#[test]
fn battery_zero_is_logged_as_on() {
    assert_eq!(carry_out(action_of(KEY_BATTERY, 0), &[]), vec![log(Severity::Info, "BATTERY ON")]);
}

#[test]
fn battery_one_is_logged_as_off() {
    assert_eq!(carry_out(action_of(KEY_BATTERY, 1), &[]), vec![log(Severity::Info, "BATTERY OFF")]);
}

#[test]
fn prog1_zero_stops_the_service_waits_and_shuts_down() {
    assert_eq!(
        carry_out(action_of(KEY_PROG1, 0), &[]),
        vec![
            log(Severity::Warn, "KEY_PROG1 ON"),
            stop_service(),
            Effect::Delay(1000),
            shutdown_now(),
        ]
    );
}

#[test]
fn prog1_zero_shuts_down_even_if_the_service_stop_fails() {
    assert_eq!(
        carry_out(action_of(KEY_PROG1, 0), &[0]),
        vec![
            log(Severity::Warn, "KEY_PROG1 ON"),
            stop_service(),
            log(Severity::Warn, "shutdown appfare command failed, err: no such file 0"),
            Effect::Delay(1000),
            shutdown_now(),
        ]
    );
}

#[test]
fn a_failed_shutdown_command_is_reported_and_ends_the_sequence() {
    assert_eq!(
        carry_out(action_of(KEY_PROG1, 0), &[0, 1]),
        vec![
            log(Severity::Warn, "KEY_PROG1 ON"),
            stop_service(),
            log(Severity::Warn, "shutdown appfare command failed, err: no such file 0"),
            Effect::Delay(1000),
            shutdown_now(),
            log(Severity::Warn, "shutdown command failed, err: no such file 1"),
        ]
    );
}

#[test]
fn prog2_one_writes_a_to_zero_before_b_to_zero() {
    assert_eq!(
        carry_out(action_of(KEY_PROG2, 1), &[]),
        vec![
            log(Severity::Warn, "ADC alert ON"),
            signal(TARGET_A, SIGNAL::ZERO, NOTE_A),
            signal(TARGET_B, SIGNAL::ZERO, NOTE_B),
        ]
    );
}

#[test]
fn prog2_zero_writes_b_to_one_before_a_to_one() {
    assert_eq!(
        carry_out(action_of(KEY_PROG2, 0), &[]),
        vec![
            log(Severity::Info, "ADC alert OFF"),
            signal(TARGET_B, SIGNAL::ONE, NOTE_B),
            signal(TARGET_A, SIGNAL::ONE, NOTE_A),
        ]
    );
}

#[test]
fn a_failed_write_does_not_hold_back_the_other() {
    assert_eq!(
        carry_out(action_of(KEY_PROG2, 1), &[0, 1]),
        vec![
            log(Severity::Warn, "ADC alert ON"),
            signal(TARGET_A, SIGNAL::ZERO, NOTE_A),
            log(Severity::Warn, "shutdown \"power-pciusb\" command failed, err: no such file 0"),
            signal(TARGET_B, SIGNAL::ZERO, NOTE_B),
            log(Severity::Warn, "shutdown \"reset-usbh0\" command failed, err: no such file 1"),
        ]
    );
    assert_eq!(
        carry_out(action_of(KEY_PROG2, 0), &[0]),
        vec![
            log(Severity::Info, "ADC alert OFF"),
            signal(TARGET_B, SIGNAL::ONE, NOTE_B),
            log(Severity::Warn, "shutdown \"reset-usbh0\" command failed, err: no such file 0"),
            signal(TARGET_A, SIGNAL::ONE, NOTE_A),
        ]
    );
}

#[test]
fn the_steps_handed_out_are_the_plan_whatever_fails() {
    for action in [action_of(KEY_PROG1, 0), action_of(KEY_PROG2, 1), action_of(KEY_PROG2, 0)] {
        let planned = plan(action.clone());
        for failing in [vec![], vec![0], vec![1], vec![0, 1]] {
            let issued = carry_out(action.clone(), &failing);
            let mut steps = Vec::new();
            let mut after_spawn = false;
            for effect in issued {
                let report = after_spawn
                    && matches!(&effect, Effect::Log(entry) if entry.message.contains(", err: "));
                after_spawn = matches!(effect, Effect::Run { .. } | Effect::Signal { .. });
                if !report {
                    steps.push(effect);
                }
            }
            assert_eq!(steps, planned);
        }
    }
}

#[test]
fn a_failure_reported_after_a_log_line_or_a_delay_is_ignored() {
    let mut executor = ActionExecutor::new(Action::ShutdownSequence);
    assert_eq!(executor.advance(Outcome::Failed("x".to_string())), Some(log(Severity::Warn, "KEY_PROG1 ON")));
    assert_eq!(executor.advance(Outcome::Failed("x".to_string())), Some(stop_service()));
    assert_eq!(executor.advance(Outcome::Done), Some(Effect::Delay(1000)));
    assert_eq!(executor.advance(Outcome::Failed("x".to_string())), Some(shutdown_now()));
    assert!(executor.is_finished());
    assert_eq!(executor.advance(Outcome::Done), None);
    assert_eq!(executor.advance(Outcome::Failed("x".to_string())), None);
    assert_eq!(executor.advance(Outcome::Done), None);
}

#[test]
fn a_new_executor_is_not_finished() {
    assert!(!ActionExecutor::new(Action::LogState("x".to_string())).is_finished());
    assert!(!ActionExecutor::new(Action::ShutdownSequence).is_finished());
}
