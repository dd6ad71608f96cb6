//! Steps: named units of one or more shell command strings, executed
//! strictly in order, and the in-flight record of one step's run.
//!
//! Order matters - later commands may depend on earlier ones - so a
//! [`StepRun`] hands out command indices one at a time and takes a verdict
//! back before the next comes out. A failing command does not abort the
//! rest of its step; the step as a whole is failed exactly when at least
//! one of its commands failed (the any-fail policy).

use vstd::prelude::*;

use crate::config::{Config, CustomCommandSpec};
use crate::executor::{
    exit_code_of, outcome_of, stderr_of, stdout_of, verdict_of, CommandEvent, CommandVerdict,
    ExecutionOutcome,
};

verus! {

/// Mathematical model of a step: its display name and its commands, in
/// dispatch order.
#[verifier::ext_equal]
pub struct StepSpec {
    pub description: Seq<char>,
    pub cmds: Seq<Seq<char>>,
}

/// A named maintenance action wrapping one or more shell command strings,
/// executed in order. Immutable once constructed.
#[derive(Debug)]
pub struct CommandStep {
    pub description: String,
    pub cmds: Vec<String>,
}

impl View for CommandStep {
    type V = StepSpec;

    open spec fn view(&self) -> StepSpec {
        StepSpec { description: self.description@, cmds: self.cmds.deep_view() }
    }
}

impl CommandStep {
    /// A step named `description` over `cmds`, kept in the given order.
    pub fn new(description: String, cmds: Vec<String>) -> (s: CommandStep)
        ensures
            s@.description == description@,
            s@.cmds == cmds.deep_view(),
    {
        CommandStep { description, cmds }
    }

    /// The step's display name.
    pub fn description(&self) -> (r: &str)
        ensures
            r@ == self@.description,
    {
        self.description.as_str()
    }

    /// How many commands the step wraps.
    pub fn command_count(&self) -> (n: usize)
        ensures
            n == self@.cmds.len(),
    {
        self.cmds.len()
    }

    /// The command at `i`, cloned for dispatch.
    pub fn command_at(&self, i: usize) -> (c: String)
        requires
            i < self@.cmds.len(),
        ensures
            c@ == self@.cmds[i as int],
    {
        self.cmds[i].clone()
    }
}

/// Lifecycle of one step within a run, in order:
/// `Pending -> (Gated) -> { Skipped | Running -> { Completed | Failed } }`.
/// `Skipped`, `Completed` and `Failed` are terminal: no retries, no
/// re-entry.
#[derive(Debug, Clone, Copy, PartialEq, Eq, Structural)]
pub enum StepState {
    Pending,
    Gated,
    Running,
    Skipped,
    Completed,
    Failed,
}

/// The terminal states: once one is reached, the step is never revisited.
pub open spec fn is_terminal(s: StepState) -> bool {
    s == StepState::Skipped || s == StepState::Completed || s == StepState::Failed
}

/// Whether a step with these per-command verdicts counts as failed: the
/// any-fail policy fails the step exactly when at least one command
/// failed. A soft-skipped command never does.
pub open spec fn step_failed(vs: Seq<CommandVerdict>) -> bool {
    exists|i: int| 0 <= i < vs.len() && vs[i] == CommandVerdict::Failed
}

/// Terminal status the any-fail policy owes a finished step.
pub open spec fn step_status(vs: Seq<CommandVerdict>) -> StepState {
    if step_failed(vs) {
        StepState::Failed
    } else {
        StepState::Completed
    }
}

/// A step with zero commands never fails: it always completes (vacuous
/// success).
pub proof fn lemma_empty_step_completes()
    ensures
        step_status(Seq::<CommandVerdict>::empty()) == StepState::Completed,
{
}

/// A step all of whose commands succeeded completes - and since the status
/// is a function of the verdicts alone, running such a step any number of
/// times completes every time.
pub proof fn lemma_all_succeeded_completes(vs: Seq<CommandVerdict>)
    requires
        forall|i: int| 0 <= i < vs.len() ==> vs[i] == CommandVerdict::Succeeded,
    ensures
        step_status(vs) == StepState::Completed,
{
}

/// A step whose single command exited with a non-zero status fails - except
/// for the status the shell reserves for an absent binary, which soft-skips.
pub proof fn lemma_single_nonzero_exit_fails(e: CommandEvent)
    requires
        e is Exited,
        e->code != 0,
        e->code != crate::executor::NOT_FOUND_STATUS,
    ensures
        step_status(seq![verdict_of(e)]) == StepState::Failed,
{
    let vs = seq![verdict_of(e)];
    assert(vs[0] == CommandVerdict::Failed);
}

/// A step whose single command's binary is absent completes (soft-skip): it
/// is never counted as failed.
pub proof fn lemma_single_absent_binary_completes()
    ensures
        step_status(seq![verdict_of(CommandEvent::NotFound)]) == StepState::Completed,
{
    let vs = seq![verdict_of(CommandEvent::NotFound)];
    assert(vs[0] == CommandVerdict::SoftSkipped);
    assert(!step_failed(vs)) by {
        assert(forall|i: int| 0 <= i < vs.len() ==> vs[i] != CommandVerdict::Failed);
    }
}

/// One step's execution in flight. Commands are dispatched strictly in
/// sequence: the next command's index is handed out only after every
/// earlier command's verdict has been recorded.
#[derive(Debug)]
pub struct StepRun {
    /// Verdicts of the commands dispatched so far, in dispatch order.
    pub verdicts: Vec<CommandVerdict>,
    /// How many commands the step being run wraps.
    pub total: usize,
}

impl StepRun {
    /// Well-formed: never more verdicts than the step has commands.
    pub open spec fn wf(&self) -> bool {
        self.verdicts@.len() <= self.total
    }

    /// Begin running `step`: nothing dispatched yet.
    pub fn begin(step: &CommandStep) -> (r: StepRun)
        ensures
            r.wf(),
            r.total == step@.cmds.len(),
            r.verdicts@ == Seq::<CommandVerdict>::empty(),
    {
        StepRun { verdicts: Vec::new(), total: step.command_count() }
    }

    /// The index of the next command to dispatch: exactly the count of
    /// verdicts already recorded. Command `i` therefore never comes out
    /// before commands `0..i` have all completed or been recorded as
    /// failed; after the last verdict no command comes out at all.
    pub fn next_command(&self) -> (r: Option<usize>)
        requires
            self.wf(),
        ensures
            r == (if self.verdicts@.len() < self.total {
                Some(self.verdicts@.len() as usize)
            } else {
                None::<usize>
            }),
    {
        if self.verdicts.len() < self.total {
            Some(self.verdicts.len())
        } else {
            None
        }
    }

    /// Record how the command just dispatched ended, and get back its
    /// outcome record for display and logging. Appends exactly the verdict
    /// the event is owed; a failure is recorded, never raised, so the
    /// remaining commands of the step still run.
    pub fn record(&mut self, e: CommandEvent) -> (o: ExecutionOutcome)
        requires
            old(self).wf(),
            old(self).verdicts@.len() < old(self).total,
        ensures
            final(self).wf(),
            final(self).total == old(self).total,
            final(self).verdicts@ == old(self).verdicts@.push(verdict_of(e)),
            o.verdict == verdict_of(e),
            o.exit_code == exit_code_of(e),
            o.stdout@ == stdout_of(e),
            o.stderr@ == stderr_of(e),
    {
        let o = outcome_of(e);
        self.verdicts.push(o.verdict);
        o
    }

    /// Whether every command of the step has been dispatched and recorded.
    pub fn is_complete(&self) -> (b: bool)
        ensures
            b == (self.verdicts@.len() == self.total),
    {
        self.verdicts.len() == self.total
    }

    /// Whether any command recorded so far failed (the any-fail policy).
    pub fn any_failed(&self) -> (b: bool)
        ensures
            b == step_failed(self.verdicts@),
    {
        let mut i: usize = 0;
        while i < self.verdicts.len()
            invariant
                i <= self.verdicts@.len(),
                forall|j: int| 0 <= j < i ==> self.verdicts@[j] != CommandVerdict::Failed,
            decreases self.verdicts@.len() - i,
        {
            if self.verdicts[i] == CommandVerdict::Failed {
                assert(step_failed(self.verdicts@)) by {
                    assert(self.verdicts@[i as int] == CommandVerdict::Failed);
                }
                return true;
            }
            i += 1;
        }
        false
    }

    /// Terminal status of a completed step: failed exactly when at least
    /// one of its commands failed, completed otherwise - so a step with
    /// zero commands completes vacuously.
    pub fn status(&self) -> (st: StepState)
        requires
            self.verdicts@.len() == self.total,
        ensures
            st == step_status(self.verdicts@),
    {
        if self.any_failed() {
            StepState::Failed
        } else {
            StepState::Completed
        }
    }
}

/// The steps of `base` whose names the skip list does not hold, in their
/// original order.
pub open spec fn kept_steps(base: Seq<StepSpec>, skip: Seq<Seq<char>>) -> Seq<StepSpec>
    decreases base.len(),
{
    if base.len() == 0 {
        Seq::empty()
    } else {
        let rest = kept_steps(base.drop_last(), skip);
        if skip.contains(base.last().description) {
            rest
        } else {
            rest.push(base.last())
        }
    }
}

/// The steps the enabled custom commands contribute, in their original
/// order.
pub open spec fn custom_steps(cs: Seq<CustomCommandSpec>) -> Seq<StepSpec>
    decreases cs.len(),
{
    if cs.len() == 0 {
        Seq::empty()
    } else {
        let rest = custom_steps(cs.drop_last());
        if cs.last().enabled {
            rest.push(StepSpec { description: cs.last().name, cmds: cs.last().commands })
        } else {
            rest
        }
    }
}

/// Whether the list holds this exact name.
fn holds_name(names: &Vec<String>, name: &String) -> (b: bool)
    ensures
        b == names.deep_view().contains(name@),
{
    let mut i: usize = 0;
    while i < names.len()
        invariant
            i <= names@.len(),
            forall|j: int| 0 <= j < i ==> names.deep_view()[j] != name@,
        decreases names@.len() - i,
    {
        if names[i].eq(name) {
            assert(names.deep_view()[i as int] == name@);
            return true;
        }
        i += 1;
    }
    assert(!names.deep_view().contains(name@));
    false
}

/// A duplicate of a step, equal in model.
fn clone_step(s: &CommandStep) -> (r: CommandStep)
    ensures
        r@ == s@,
{
    let r = CommandStep { description: s.description.clone(), cmds: s.cmds.clone() };
    proof {
        assert(r.cmds.deep_view() =~~= s.cmds.deep_view());
        assert(r@ =~~= s@);
    }
    r
}

/// A vector of strings, equal in model.
fn clone_strings(v: &Vec<String>) -> (r: Vec<String>)
    ensures
        r.deep_view() == v.deep_view(),
{
    let r = v.clone();
    proof {
        assert(r.deep_view() =~~= v.deep_view());
    }
    r
}

/// Build the catalog one run drives: the static steps whose names the skip
/// list does not hold, in order, followed by the enabled custom commands,
/// in order.
pub fn build_catalog(base: Vec<CommandStep>, config: &Config) -> (v: Vec<CommandStep>)
    ensures
        v@.map_values(|s: CommandStep| s@) == kept_steps(
            base@.map_values(|s: CommandStep| s@),
            config@.skip_steps,
        ) + custom_steps(config@.custom_commands),
{
    let ghost base_views = base@.map_values(|s: CommandStep| s@);
    let ghost customs = config@.custom_commands;
    let mut out: Vec<CommandStep> = Vec::new();
    let mut i: usize = 0;
    while i < base.len()
        invariant
            i <= base@.len(),
            base_views == base@.map_values(|s: CommandStep| s@),
            out@.map_values(|s: CommandStep| s@) == kept_steps(
                base_views.take(i as int),
                config@.skip_steps,
            ),
        decreases base@.len() - i,
    {
        let ghost prefix = base_views.take(i as int);
        let keep = !holds_name(&config.skip_steps, &base[i].description);
        if keep {
            let s = clone_step(&base[i]);
            out.push(s);
        }
        proof {
            assert(base_views.take(i + 1).drop_last() =~= prefix);
            assert(base_views.take(i + 1).last() == base_views[i as int]);
            assert(base_views[i as int] == base@[i as int]@);
            if keep {
                assert(out@.map_values(|s: CommandStep| s@) =~= kept_steps(
                    base_views.take(i + 1),
                    config@.skip_steps,
                ));
            }
        }
        i += 1;
    }
    proof {
        assert(base_views.take(base@.len() as int) =~= base_views);
    }
    let mut k: usize = 0;
    while k < config.custom_commands.len()
        invariant
            k <= customs.len(),
            customs == config@.custom_commands,
            out@.map_values(|s: CommandStep| s@) == kept_steps(base_views, config@.skip_steps)
                + custom_steps(customs.take(k as int)),
        decreases customs.len() - k,
    {
        let ghost prefix = customs.take(k as int);
        proof {
            assert(customs.take(k + 1).drop_last() =~= prefix);
            assert(customs.take(k + 1).last() == customs[k as int]);
            assert(customs[k as int] == config.custom_commands@[k as int]@);
        }
        let c = &config.custom_commands[k];
        if c.enabled {
            let s = CommandStep { description: c.name.clone(), cmds: clone_strings(&c.commands) };
            proof {
                assert(s@ =~= (StepSpec {
                    description: customs[k as int].name,
                    cmds: customs[k as int].commands,
                }));
            }
            let ghost out_before = out@;
            let ghost added = s@;
            out.push(s);
            proof {
                assert(custom_steps(customs.take(k + 1)) == custom_steps(prefix).push(
                    StepSpec {
                        description: customs[k as int].name,
                        cmds: customs[k as int].commands,
                    },
                ));
                assert(out@.map_values(|s: CommandStep| s@) =~= out_before.map_values(
                    |s: CommandStep| s@,
                ).push(added));
                assert(kept_steps(base_views, config@.skip_steps) + custom_steps(prefix).push(
                    added,
                ) =~= (kept_steps(base_views, config@.skip_steps) + custom_steps(prefix)).push(
                    added,
                ));
                assert(out@.map_values(|s: CommandStep| s@) == kept_steps(
                    base_views,
                    config@.skip_steps,
                ) + custom_steps(customs.take(k + 1)));
            }
        } else {
            proof {
                assert(!customs[k as int].enabled);
                assert(custom_steps(customs.take(k + 1)) == custom_steps(prefix));
            }
        }
        k += 1;
    }
    proof {
        assert(customs.take(customs.len() as int) =~= customs);
    }
    out
}

} // verus!
