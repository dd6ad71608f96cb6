//! The orchestrator: drives an ordered list of steps through the optional
//! confirmation gate and the per-step state machine, and accumulates the
//! run statistics.
//!
//! Steps resolve strictly in order, one at a time. Each step moves
//! `Pending -> (Gated) -> { Skipped | Running -> { Completed | Failed } }`
//! and is tallied exactly once, when its terminal state is known. One
//! step's failure never blocks later steps. The caller performs the
//! outside work - prompting the user, spawning processes, rendering
//! progress - and reports what happened; every decision in between is made
//! here, under the invariant that the three tallies count exactly the
//! terminal states reached so far.

use vstd::prelude::*;

use crate::config::Config;
use crate::stats::UpdateStats;
use crate::steps::{is_terminal, step_failed, step_status, CommandStep, StepRun, StepSpec, StepState};

verus! {

/// How many entries of `s` equal `t`.
pub open spec fn count_state(s: Seq<StepState>, t: StepState) -> nat
    decreases s.len(),
{
    if s.len() == 0 {
        0
    } else {
        count_state(s.drop_last(), t) + (if s.last() == t {
            1nat
        } else {
            0nat
        })
    }
}

/// Appending one entry raises exactly the matching count by one.
proof fn lemma_count_push(s: Seq<StepState>, x: StepState, t: StepState)
    ensures
        count_state(s.push(x), t) == count_state(s, t) + (if x == t {
            1int
        } else {
            0int
        }),
{
    assert(s.push(x).drop_last() =~= s);
    assert(s.push(x).last() == x);
}

/// No state is counted more often than there are entries.
proof fn lemma_count_le_len(s: Seq<StepState>, t: StepState)
    ensures
        count_state(s, t) <= s.len(),
    decreases s.len(),
{
    if s.len() > 0 {
        lemma_count_le_len(s.drop_last(), t);
    }
}

/// Every terminal state is counted exactly once: over a list of resolved
/// steps, the skipped, completed and failed tallies cover the whole list.
pub proof fn lemma_terminal_counts(s: Seq<StepState>)
    requires
        forall|i: int| 0 <= i < s.len() ==> is_terminal(#[trigger] s[i]),
    ensures
        count_state(s, StepState::Skipped) + count_state(s, StepState::Completed) + count_state(
            s,
            StepState::Failed,
        ) == s.len(),
    decreases s.len(),
{
    if s.len() > 0 {
        assert(forall|i: int|
            0 <= i < s.drop_last().len() ==> is_terminal(#[trigger] s.drop_last()[i]));
        lemma_terminal_counts(s.drop_last());
        assert(is_terminal(s[s.len() - 1]));
    }
}

/// What every transition leaves unchanged: the two mode flags, the steps
/// and the configuration.
pub open spec fn same_run(a: Updater, b: Updater) -> bool {
    &&& a.interactive == b.interactive
    &&& a.quiet == b.quiet
    &&& a.steps == b.steps
    &&& a.config == b.config
}

/// One maintenance run in progress: the ordered steps, the recorded state
/// of each, and the statistics so far. Built by [`Updater::new`] and moved
/// through its transition methods only.
#[derive(Debug)]
pub struct Updater {
    /// Whether each step passes through the interactive confirmation gate.
    pub interactive: bool,
    /// Whether progress is presented as a compact single-line indicator.
    /// Purely presentational: the state machine and the statistics are the
    /// same either way.
    pub quiet: bool,
    /// The steps of the run, in order.
    pub steps: Vec<CommandStep>,
    /// The configuration the run was started with.
    pub config: Config,
    /// The recorded state of each step.
    pub states: Vec<StepState>,
    /// Index of the step now being driven; everything before it is
    /// terminal, everything after it still pending.
    pub cursor: usize,
    /// The tallies so far, updated exactly once per resolved step.
    pub stats: UpdateStats,
}

impl Updater {
    /// The models of the steps, in run order.
    pub open spec fn steps_seq(&self) -> Seq<StepSpec> {
        self.steps@.map_values(|s: CommandStep| s@)
    }

    /// The run's invariant: states and steps line up, everything before the
    /// cursor is terminal, everything after it pending, the step at the
    /// cursor unresolved, and each tally counts exactly the matching
    /// terminal states reached so far.
    pub open spec fn wf(&self) -> bool {
        &&& self.states@.len() == self.steps@.len()
        &&& self.stats.total_steps == self.steps@.len()
        &&& self.cursor <= self.steps@.len()
        &&& (forall|i: int| 0 <= i < self.cursor ==> is_terminal(#[trigger] self.states@[i]))
        &&& (forall|i: int|
            self.cursor < i < self.states@.len() ==> #[trigger] self.states@[i]
                == StepState::Pending)
        &&& (self.cursor < self.states@.len() ==> !is_terminal(
            self.states@[self.cursor as int],
        ))
        &&& self.stats.completed_steps == count_state(
            self.states@.take(self.cursor as int),
            StepState::Completed,
        )
        &&& self.stats.skipped_steps == count_state(
            self.states@.take(self.cursor as int),
            StepState::Skipped,
        )
        &&& self.stats.failed_steps == count_state(
            self.states@.take(self.cursor as int),
            StepState::Failed,
        )
    }

    /// A fresh run over `steps`: every step pending, every tally zero, the
    /// total fixed to the number of steps, the start time taken from the
    /// local clock.
    pub fn new(interactive: bool, quiet: bool, steps: Vec<CommandStep>, config: Config) -> (u:
        Updater)
        ensures
            u.wf(),
            u.interactive == interactive,
            u.quiet == quiet,
            u.steps == steps,
            u.config == config,
            u.cursor == 0,
            u.states@ =~= Seq::new(steps@.len(), |i: int| StepState::Pending),
            u.stats.total_steps == steps@.len(),
            u.stats.completed_steps == 0,
            u.stats.skipped_steps == 0,
            u.stats.failed_steps == 0,
    {
        let total = steps.len();
        let mut states: Vec<StepState> = Vec::new();
        let mut i: usize = 0;
        while i < total
            invariant
                i <= total,
                states@.len() == i,
                forall|j: int| 0 <= j < i ==> #[trigger] states@[j] == StepState::Pending,
            decreases total - i,
        {
            states.push(StepState::Pending);
            i += 1;
        }
        let u = Updater {
            interactive,
            quiet,
            steps,
            config,
            states,
            cursor: 0,
            stats: UpdateStats::new(total),
        };
        proof {
            assert(u.states@ =~= Seq::new(u.steps@.len(), |i: int| StepState::Pending));
            assert(u.states@.take(0) =~= Seq::<StepState>::empty());
        }
        u
    }

    /// The index of the step now being driven, while any remains.
    pub fn current(&self) -> (r: Option<usize>)
        ensures
            r == (if self.cursor < self.states@.len() {
                Some(self.cursor)
            } else {
                None::<usize>
            }),
    {
        if self.cursor < self.states.len() {
            Some(self.cursor)
        } else {
            None
        }
    }

    /// The recorded state of step `i`.
    pub fn state_of(&self, i: usize) -> (s: StepState)
        requires
            i < self.states@.len(),
        ensures
            s == self.states@[i as int],
    {
        self.states[i]
    }

    /// The step at `i`.
    pub fn step_at(&self, i: usize) -> (s: &CommandStep)
        requires
            i < self.steps@.len(),
        ensures
            *s == self.steps@[i as int],
    {
        &self.steps[i]
    }

    /// Present the confirmation gate: the pending step at the cursor now
    /// waits on a yes/no decision. Only an interactive run gates.
    pub fn request_gate(&mut self)
        requires
            old(self).wf(),
            old(self).interactive,
            old(self).cursor < old(self).states@.len(),
            old(self).states@[old(self).cursor as int] == StepState::Pending,
        ensures
            final(self).wf(),
            same_run(*old(self), *final(self)),
            final(self).cursor == old(self).cursor,
            final(self).stats == old(self).stats,
            final(self).states@ == old(self).states@.update(
                old(self).cursor as int,
                StepState::Gated,
            ),
    {
        let ghost c = self.cursor as int;
        self.states[self.cursor] = StepState::Gated;
        proof {
            assert(self.states@.take(c) =~= old(self).states@.take(c));
        }
    }

    /// Apply the yes or no answer for the current step. A no skips the
    /// step: it is recorded `Skipped`, the skip tally alone grows by one,
    /// and the run moves on - its commands are never dispatched. An
    /// accepted gate sends the step to `Running` and changes nothing else.
    pub fn resolve_gate(&mut self, accepted: bool)
        requires
            old(self).wf(),
            old(self).cursor < old(self).states@.len(),
            old(self).states@[old(self).cursor as int] == StepState::Gated,
        ensures
            final(self).wf(),
            same_run(*old(self), *final(self)),
            accepted ==> {
                &&& final(self).cursor == old(self).cursor
                &&& final(self).stats == old(self).stats
                &&& final(self).states@ == old(self).states@.update(
                    old(self).cursor as int,
                    StepState::Running,
                )
            },
            !accepted ==> {
                &&& final(self).cursor == old(self).cursor + 1
                &&& final(self).stats == (UpdateStats {
                    skipped_steps: (old(self).stats.skipped_steps + 1) as usize,
                    ..old(self).stats
                })
                &&& final(self).states@ == old(self).states@.update(
                    old(self).cursor as int,
                    StepState::Skipped,
                )
            },
    {
        let ghost c = self.cursor as int;
        if accepted {
            self.states[self.cursor] = StepState::Running;
            proof {
                assert(self.states@.take(c) =~= old(self).states@.take(c));
            }
        } else {
            self.states[self.cursor] = StepState::Skipped;
            proof {
                assert(old(self).states@.take(c) =~= self.states@.take(c));
                lemma_count_le_len(self.states@.take(c), StepState::Skipped);
            }
            self.stats.skipped_steps = self.stats.skipped_steps + 1;
            self.cursor = self.cursor + 1;
            proof {
                assert(self.states@.take(c + 1) =~= self.states@.take(c).push(StepState::Skipped));
                lemma_count_push(self.states@.take(c), StepState::Skipped, StepState::Skipped);
                lemma_count_push(self.states@.take(c), StepState::Skipped, StepState::Completed);
                lemma_count_push(self.states@.take(c), StepState::Skipped, StepState::Failed);
            }
        }
    }

    /// Send the pending step at the cursor straight to `Running`: the path
    /// of a run whose confirmation gate is disabled.
    pub fn begin_step(&mut self)
        requires
            old(self).wf(),
            !old(self).interactive,
            old(self).cursor < old(self).states@.len(),
            old(self).states@[old(self).cursor as int] == StepState::Pending,
        ensures
            final(self).wf(),
            same_run(*old(self), *final(self)),
            final(self).cursor == old(self).cursor,
            final(self).stats == old(self).stats,
            final(self).states@ == old(self).states@.update(
                old(self).cursor as int,
                StepState::Running,
            ),
    {
        let ghost c = self.cursor as int;
        self.states[self.cursor] = StepState::Running;
        proof {
            assert(self.states@.take(c) =~= old(self).states@.take(c));
        }
    }

    /// Fold a finished step's run into the statistics. The any-fail policy
    /// decides the terminal state: `Failed` exactly when at least one of
    /// the step's commands failed, `Completed` otherwise - so a step with
    /// zero commands completes vacuously, and soft-skipped commands never
    /// fail a step. Exactly one tally grows, and the run moves on to the
    /// next step whatever the outcome.
    pub fn finish_step(&mut self, run: &StepRun)
        requires
            old(self).wf(),
            old(self).cursor < old(self).states@.len(),
            old(self).states@[old(self).cursor as int] == StepState::Running,
            run.total == old(self).steps_seq()[old(self).cursor as int].cmds.len(),
            run.verdicts@.len() == run.total,
        ensures
            final(self).wf(),
            same_run(*old(self), *final(self)),
            final(self).cursor == old(self).cursor + 1,
            final(self).states@ == old(self).states@.update(
                old(self).cursor as int,
                step_status(run.verdicts@),
            ),
            step_failed(run.verdicts@) ==> final(self).stats == (UpdateStats {
                failed_steps: (old(self).stats.failed_steps + 1) as usize,
                ..old(self).stats
            }),
            !step_failed(run.verdicts@) ==> final(self).stats == (UpdateStats {
                completed_steps: (old(self).stats.completed_steps + 1) as usize,
                ..old(self).stats
            }),
    {
        let ghost c = self.cursor as int;
        let st = run.status();
        self.states[self.cursor] = st;
        proof {
            assert(old(self).states@.take(c) =~= self.states@.take(c));
            lemma_count_le_len(self.states@.take(c), StepState::Failed);
            lemma_count_le_len(self.states@.take(c), StepState::Completed);
        }
        if st == StepState::Failed {
            self.stats.failed_steps = self.stats.failed_steps + 1;
        } else {
            self.stats.completed_steps = self.stats.completed_steps + 1;
        }
        self.cursor = self.cursor + 1;
        proof {
            assert(self.states@.take(c + 1) =~= self.states@.take(c).push(st));
            lemma_count_push(self.states@.take(c), st, StepState::Skipped);
            lemma_count_push(self.states@.take(c), st, StepState::Completed);
            lemma_count_push(self.states@.take(c), st, StepState::Failed);
        }
    }

    /// The final statistics, once every step is resolved: each tally counts
    /// exactly the steps that reached the matching terminal state, and the
    /// three together cover every step - completed, skipped and failed add
    /// up to the total.
    pub fn finalize(&self) -> (s: UpdateStats)
        requires
            self.wf(),
            self.cursor == self.states@.len(),
        ensures
            s == self.stats,
            s.completed_steps == count_state(self.states@, StepState::Completed),
            s.skipped_steps == count_state(self.states@, StepState::Skipped),
            s.failed_steps == count_state(self.states@, StepState::Failed),
            s.completed_steps + s.skipped_steps + s.failed_steps == s.total_steps,
    {
        proof {
            assert(self.states@.take(self.cursor as int) =~= self.states@);
            lemma_terminal_counts(self.states@);
        }
        self.stats
    }
}

} // verus!
