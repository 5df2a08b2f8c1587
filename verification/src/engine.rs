//! The state machine that takes a scenario through its acts.
//!
//! This module is the mathematical model: the state of a scenario, and the
//! functions that say what the scenario asks of the session in a state and
//! which state follows on a reply. [`crate::scenario::Scenario`] is the
//! executable object that follows it step by step.

use crate::act::{ActKind, ActView, ValueView};
use crate::session::{ActionView, Failure, FailureView, ReplyView};
use vstd::prelude::*;

verus! {

/// How far the run of a scenario has come.
#[derive(Debug, PartialEq, Eq)]
pub enum Phase {
    /// No run was started yet.
    NotStarted,
    /// The shell is being started.
    Spawning,
    /// The command line is being sent to the shell.
    Launching,
    /// The acts are being decided, one after the other.
    Running,
    /// The run is over: every act was satisfied.
    Completed,
    /// The run is over: it failed.
    Failed(Failure),
}

/// The mathematical form of a [`Phase`].
pub enum PhaseView {
    NotStarted,
    Spawning,
    Launching,
    Running,
    Completed,
    Failed(FailureView),
}

impl View for Phase {
    type V = PhaseView;

    open spec fn view(&self) -> PhaseView {
        match self {
            Phase::NotStarted => PhaseView::NotStarted,
            Phase::Spawning => PhaseView::Spawning,
            Phase::Launching => PhaseView::Launching,
            Phase::Running => PhaseView::Running,
            Phase::Completed => PhaseView::Completed,
            Phase::Failed(failure) => PhaseView::Failed(failure@),
        }
    }
}

impl PhaseView {
    /// Whether a run has ended.
    pub open spec fn over(self) -> bool {
        self is Completed || self is Failed
    }
}

/// The mathematical form of a [`crate::scenario::Scenario`].
pub struct ScenarioView {
    /// The command line that is sent to the shell.
    pub command: Seq<char>,
    /// The bound on each read, in seconds.
    pub timeout: u32,
    /// The acts, in the order in which they were appended.
    pub acts: Seq<ActView>,
    /// The exit status that was observed last in the current run.
    pub exit_code: i32,
    /// How far the run has come.
    pub phase: PhaseView,
    /// The number of acts that the current run has decided.
    pub pointer: nat,
}

impl ScenarioView {
    /// A scenario as it is created: no acts, no run.
    pub open spec fn created(command: Seq<char>, timeout: u32) -> ScenarioView {
        ScenarioView {
            command,
            timeout,
            acts: Seq::empty(),
            exit_code: 0,
            phase: PhaseView::NotStarted,
            pointer: 0,
        }
    }

    /// The scenario with `act` appended to its acts.
    pub open spec fn appended(self, act: ActView) -> ScenarioView {
        ScenarioView { acts: self.acts.push(act), ..self }
    }

    /// A new scenario to which an act was appended for each of `steps`, in
    /// their order: for each one the act that a builder call makes of a kind
    /// and an expected value.
    pub open spec fn built(
        command: Seq<char>,
        timeout: u32,
        steps: Seq<(ActKind, ValueView)>,
    ) -> ScenarioView
        decreases steps.len(),
    {
        if steps.len() == 0 {
            ScenarioView::created(command, timeout)
        } else {
            ScenarioView::built(command, timeout, steps.drop_last()).appended(
                ActView::fresh(steps.last().0, steps.last().1),
            )
        }
    }

    /// Whether every act that the run has decided is satisfied.
    pub open spec fn decided_are_ok(self) -> bool {
        forall|i: int| 0 <= i < self.pointer ==> (#[trigger] self.acts[i]).ok
    }

    /// Whether the outcomes on the acts agree with how far the run has come.
    ///
    /// The pointer counts the acts that were decided: those before it carry
    /// an outcome, those from it on carry none. Before the acts are looked
    /// at, none is decided. The run goes on, and is completed, only while
    /// every decided act is satisfied. Where it failed, no act but the one
    /// decided last can be unsatisfied, and after a mismatch that one is.
    pub open spec fn coherent(self) -> bool {
        &&& self.pointer <= self.acts.len()
        &&& forall|i: int|
            self.pointer <= i < self.acts.len() ==> (#[trigger] self.acts[i]).is_fresh()
        &&& forall|i: int| 0 <= i < self.pointer - 1 ==> (#[trigger] self.acts[i]).ok
        &&& self.phase is NotStarted || self.phase is Spawning || self.phase is Launching
            ==> self.pointer == 0
        &&& self.phase is Running ==> self.decided_are_ok() && (self.has_current()
            || self.acts.len() == 0)
        &&& self.phase is Completed ==> self.decided_are_ok() && self.pointer > 0
        &&& self.phase == PhaseView::Failed(FailureView::Mismatch) && self.pointer > 0
            ==> !self.acts[self.pointer - 1].ok
    }

    /// The invariant of a scenario: each of its acts is well formed, and the
    /// outcomes on the acts agree with how far the run has come.
    pub open spec fn wf(self) -> bool {
        &&& forall|i: int| 0 <= i < self.acts.len() ==> (#[trigger] self.acts[i]).wf()
        &&& self.coherent()
    }

    /// The scenario at the start of a run: every outcome is forgotten, and
    /// the shell is being started.
    pub open spec fn started(self) -> ScenarioView {
        ScenarioView {
            acts: self.acts.map_values(|act: ActView| act.reset()),
            exit_code: 0,
            phase: PhaseView::Spawning,
            pointer: 0,
            ..self
        }
    }

    /// Whether the run has an act to decide next.
    pub open spec fn has_current(self) -> bool {
        self.pointer < self.acts.len()
    }

    /// The act that the run decides next.
    pub open spec fn current(self) -> ActView
        recommends
            self.has_current(),
    {
        self.acts[self.pointer as int]
    }

    /// What the scenario asks of the session in this state.
    ///
    /// While the acts are being decided it is what the current act asks. A
    /// scenario without acts asks for one read all the same. Where no run is
    /// in progress, nothing is left to do but to end the session.
    pub open spec fn request(self) -> ActionView {
        match self.phase {
            PhaseView::Spawning => ActionView::Spawn { timeout: self.timeout },
            PhaseView::Launching => ActionView::SendLine(self.command),
            PhaseView::Running => if self.has_current() {
                self.current().request()
            } else {
                ActionView::ReadOutput
            },
            _ => ActionView::Release,
        }
    }

    /// The phase that follows when `reply` has decided the current act as
    /// `decided`.
    ///
    /// The run fails on an act that is not satisfied, and on an input whose
    /// line could not be written. Otherwise it goes on to the next act, or is
    /// completed where there is none.
    pub open spec fn phase_after_decision(self, decided: ActView, reply: ReplyView) -> PhaseView {
        if !decided.ok {
            PhaseView::Failed(FailureView::Mismatch)
        } else if decided.kind == ActKind::Input && !(reply is Ready) {
            PhaseView::Failed(reply.failure())
        } else if self.pointer + 1 == self.acts.len() {
            PhaseView::Completed
        } else {
            PhaseView::Running
        }
    }

    /// The state that follows on `reply` while the acts are being decided.
    ///
    /// A reply that decides the current act is recorded on it, and the
    /// pointer moves past the act. A reply that does not decide it fails the
    /// run and leaves act and pointer as they are. Without acts the run fails
    /// on any reply: on output because nothing expects it.
    pub open spec fn after_while_running(self, reply: ReplyView) -> ScenarioView {
        let exit_code = reply.exit_code_after(self.exit_code);
        if !self.has_current() {
            let failure = if reply is Output {
                FailureView::Mismatch
            } else {
                reply.failure()
            };
            ScenarioView { exit_code, phase: PhaseView::Failed(failure), ..self }
        } else {
            match self.current().judged(reply) {
                Some(decided) => ScenarioView {
                    acts: self.acts.update(self.pointer as int, decided),
                    exit_code,
                    phase: self.phase_after_decision(decided, reply),
                    pointer: self.pointer + 1,
                    ..self
                },
                None => ScenarioView {
                    exit_code,
                    phase: PhaseView::Failed(reply.failure()),
                    ..self
                },
            }
        }
    }

    /// The state that follows on `reply`.
    ///
    /// Where no run is in progress the reply changes nothing. A shell that
    /// did not start fails the run as a spawn failure. Once the shell runs,
    /// a reply that cannot be used fails the run: as the end of output where
    /// it is one, as a failure of the session otherwise.
    pub open spec fn after(self, reply: ReplyView) -> ScenarioView {
        let exit_code = reply.exit_code_after(self.exit_code);
        match self.phase {
            PhaseView::Spawning => ScenarioView {
                exit_code,
                phase: if reply is Ready {
                    PhaseView::Launching
                } else {
                    PhaseView::Failed(FailureView::Spawn)
                },
                ..self
            },
            PhaseView::Launching => ScenarioView {
                exit_code,
                phase: if reply is Ready {
                    PhaseView::Running
                } else {
                    PhaseView::Failed(reply.failure())
                },
                ..self
            },
            PhaseView::Running => self.after_while_running(reply),
            _ => self,
        }
    }

    /// The state that follows on `replies`, taken one after the other.
    pub open spec fn after_all(self, replies: Seq<ReplyView>) -> ScenarioView
        decreases replies.len(),
    {
        if replies.len() == 0 {
            self
        } else {
            self.after(replies.first()).after_all(replies.drop_first())
        }
    }

    /// The state in which a run from the start leaves the scenario, where
    /// the session answers with `replies`.
    pub open spec fn ran(self, replies: Seq<ReplyView>) -> ScenarioView {
        self.started().after_all(replies)
    }

    /// Whether a run was completed with every act satisfied.
    pub open spec fn passed(self) -> bool {
        self.phase is Completed
    }
}

} // verus!
