use mac_updater::config::Config;
use mac_updater::executor::CommandEvent;
use mac_updater::steps::{CommandStep, StepRun, StepState};
use mac_updater::updater::Updater;

fn step(name: &str, cmds: &[&str]) -> CommandStep {
    CommandStep::new(name.to_string(), cmds.iter().map(|c| c.to_string()).collect())
}

fn exited(code: i32) -> CommandEvent {
    CommandEvent::Exited { code, stdout: String::new(), stderr: String::new() }
}

/// Drive the step at the cursor through `Running` and feed it one event per
/// command.
fn run_current(u: &mut Updater, events: Vec<CommandEvent>) {
    let i = u.current().expect("a step should remain");
    if u.interactive {
        u.request_gate();
        u.resolve_gate(true);
    } else {
        u.begin_step();
    }
    let mut run = StepRun::begin(u.step_at(i));
    let mut events = events.into_iter();
    while let Some(j) = run.next_command() {
        assert!(j < u.step_at(i).command_count());
        run.record(events.next().expect("one event per command"));
    }
    assert!(run.is_complete());
    u.finish_step(&run);
}

#[test]
fn counters_cover_every_step() {
    // Steps resolved three different ways: the tallies still add up to N.
    let steps = vec![
        step("ok", &["true"]),
        step("bad", &["false"]),
        step("quiet hours", &["true"]),
        step("empty", &[]),
    ];
    let mut u = Updater::new(true, false, steps, Config::load(None));
    run_current(&mut u, vec![exited(0)]);
    run_current(&mut u, vec![exited(3)]);
    u.request_gate();
    u.resolve_gate(false);
    run_current(&mut u, vec![]);
    let st = u.finalize();
    assert_eq!(st.total_steps, 4);
    assert_eq!(st.completed_steps + st.skipped_steps + st.failed_steps, st.total_steps);
    assert_eq!(st.completed_steps, 2);
    assert_eq!(st.skipped_steps, 1);
    assert_eq!(st.failed_steps, 1);
}

#[test]
fn zero_command_step_completes() {
    let mut u = Updater::new(false, false, vec![step("nothing to do", &[])], Config::load(None));
    run_current(&mut u, vec![]);
    assert_eq!(u.state_of(0), StepState::Completed);
    let st = u.finalize();
    assert_eq!(st.completed_steps, 1);
    assert_eq!(st.failed_steps, 0);
}

#[test]
fn single_nonzero_exit_fails_step() {
    let mut u = Updater::new(false, false, vec![step("bad", &["false"])], Config::load(None));
    run_current(&mut u, vec![exited(1)]);
    assert_eq!(u.state_of(0), StepState::Failed);
    let st = u.finalize();
    assert_eq!(st.failed_steps, 1);
    assert_eq!(st.completed_steps, 0);
}

#[test]
fn single_absent_binary_completes_step() {
    let mut u = Updater::new(
        false,
        false,
        vec![step("missing", &["nonexistent-binary-xyz"])],
        Config::load(None),
    );
    run_current(&mut u, vec![CommandEvent::NotFound]);
    assert_eq!(u.state_of(0), StepState::Completed);
    let st = u.finalize();
    assert_eq!(st.failed_steps, 0);
    assert_eq!(st.completed_steps, 1);
}

#[test]
fn declined_gate_skips_without_dispatch() {
    let mut u = Updater::new(true, false, vec![step("risky", &["false"])], Config::load(None));
    u.request_gate();
    assert_eq!(u.state_of(0), StepState::Gated);
    u.resolve_gate(false);
    // The step is terminal without a single command having been handed out:
    // only a Running step ever gets a StepRun, and this one never ran.
    assert_eq!(u.state_of(0), StepState::Skipped);
    assert_eq!(u.current(), None);
    let st = u.finalize();
    assert_eq!(st.skipped_steps, 1);
    assert_eq!(st.completed_steps, 0);
    assert_eq!(st.failed_steps, 0);
}

#[test]
fn commands_come_out_strictly_in_order() {
    let s = step("ordered", &["A", "B", "C"]);
    let mut run = StepRun::begin(&s);
    // C (index 2) is never handed out before B (index 1) is recorded, and B
    // never before A (index 0).
    assert_eq!(run.next_command(), Some(0));
    assert_eq!(run.next_command(), Some(0));
    run.record(exited(0));
    assert_eq!(run.next_command(), Some(1));
    run.record(exited(1));
    assert_eq!(run.next_command(), Some(2));
    run.record(exited(0));
    assert_eq!(run.next_command(), None);
    assert!(run.is_complete());
    // A failing command did not abort the rest: all three were dispatched.
    assert!(run.any_failed());
}

#[test]
fn rerunning_a_step_gives_identical_deltas() {
    // The same no-op step twice: Completed both times, same delta each time.
    let steps = vec![step("noop", &["true"]), step("noop", &["true"])];
    let mut u = Updater::new(false, false, steps, Config::load(None));
    run_current(&mut u, vec![exited(0)]);
    let after_first = u.stats;
    run_current(&mut u, vec![exited(0)]);
    let after_second = u.stats;
    assert_eq!(u.state_of(0), StepState::Completed);
    assert_eq!(u.state_of(1), StepState::Completed);
    let first_delta = after_first.completed_steps;
    let second_delta = after_second.completed_steps - after_first.completed_steps;
    assert_eq!(first_delta, 1);
    assert_eq!(second_delta, 1);
    assert_eq!(after_second.failed_steps, 0);
    assert_eq!(after_second.skipped_steps, 0);
}

#[test]
fn catalog_end_to_end() {
    // "true" exits 0; "false" exits 1; an absent binary is the shell's 127.
    let steps = vec![
        step("Cache flush", &["true"]),
        step("Bad op", &["false"]),
        step("Missing bin", &["nonexistent-binary-xyz"]),
    ];
    let mut u = Updater::new(false, true, steps, Config::load(None));
    run_current(&mut u, vec![exited(0)]);
    run_current(&mut u, vec![exited(1)]);
    run_current(&mut u, vec![exited(127)]);
    // The missing binary is a soft-skip: counted as completed, never failed.
    assert_eq!(u.state_of(2), StepState::Completed);
    let st = u.finalize();
    assert_eq!(st.total_steps, 3);
    assert_eq!(st.failed_steps, 1);
    assert_eq!(st.skipped_steps, 0);
    assert_eq!(st.completed_steps, 2);
}

#[test]
fn declining_every_gate_skips_every_step() {
    let steps = vec![
        step("one", &["true"]),
        step("two", &["true", "false"]),
        step("three", &[]),
    ];
    let n = steps.len();
    let mut u = Updater::new(true, false, steps, Config::load(None));
    while u.current().is_some() {
        u.request_gate();
        u.resolve_gate(false);
    }
    let st = u.finalize();
    assert_eq!(st.completed_steps, 0);
    assert_eq!(st.skipped_steps, n);
    assert_eq!(st.failed_steps, 0);
}

#[test]
fn failure_never_blocks_later_steps() {
    let steps = vec![
        step("fails", &["false"]),
        step("still runs", &["true"]),
    ];
    let mut u = Updater::new(false, false, steps, Config::load(None));
    run_current(&mut u, vec![exited(9)]);
    assert_eq!(u.current(), Some(1));
    run_current(&mut u, vec![exited(0)]);
    assert_eq!(u.state_of(0), StepState::Failed);
    assert_eq!(u.state_of(1), StepState::Completed);
    let st = u.finalize();
    assert_eq!(st.completed_steps, 1);
    assert_eq!(st.failed_steps, 1);
}

#[test]
fn mixed_step_any_fail_policy() {
    // One failing command among successes fails the whole step, and the
    // remaining commands still run.
    let s = step("mixed", &["true", "false", "true"]);
    let mut u = Updater::new(false, false, vec![s], Config::load(None));
    run_current(&mut u, vec![exited(0), exited(1), exited(0)]);
    assert_eq!(u.state_of(0), StepState::Failed);
    let st = u.finalize();
    assert_eq!(st.failed_steps, 1);
}

#[test]
fn accepted_gate_runs_the_step() {
    let mut u = Updater::new(true, false, vec![step("go", &["true"])], Config::load(None));
    u.request_gate();
    u.resolve_gate(true);
    assert_eq!(u.state_of(0), StepState::Running);
    let mut run = StepRun::begin(u.step_at(0));
    run.record(exited(0));
    u.finish_step(&run);
    let st = u.finalize();
    assert_eq!(st.completed_steps, 1);
    assert_eq!(st.skipped_steps, 0);
}
