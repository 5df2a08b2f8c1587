//! Scenarios: a command line, the acts that are expected of it, and the run
//! that decides them.

use crate::act::{Act, ActKind, ActView, ExpectedValue, ValueView};
use crate::engine::{Phase, ScenarioView};
use crate::lemmas::{
    lemma_append_keeps_the_rest, lemma_nothing_follows_the_end, lemma_run_keeps_the_invariant,
    lemma_start_is_coherent, lemma_step_keeps_the_invariant,
};
use crate::session::{Action, Failure, ReplyView, SessionReply};
use vstd::prelude::*;

verus! {

/// The verdict of a run.
#[derive(Clone, Copy, Debug, PartialEq, Eq, Structural)]
pub struct ScenarioResult {
    /// Whether the run was completed with every act satisfied.
    pub ok: bool,
}

/// A command line with the acts that are expected of it, and the state of
/// its run.
#[derive(Debug)]
pub struct Scenario {
    command: String,
    timeout: u32,
    exit_code: i32,
    acts: Vec<Act>,
    phase: Phase,
    pointer: usize,
}

impl View for Scenario {
    type V = ScenarioView;

    closed spec fn view(&self) -> ScenarioView {
        ScenarioView {
            command: self.command@,
            timeout: self.timeout,
            acts: self.acts@.map_values(|act: Act| act@),
            exit_code: self.exit_code,
            phase: self.phase@,
            pointer: self.pointer as nat,
        }
    }
}

/// The mathematical form of a list of replies.
pub open spec fn replies_view(replies: Seq<SessionReply>) -> Seq<ReplyView> {
    replies.map_values(|reply: SessionReply| reply@)
}

/// Creates a scenario for `command`, with reads bounded by `timeout`
/// seconds. It has no acts yet.
pub fn clix(command: String, timeout: u32) -> (scenario: Scenario)
    ensures
        scenario@ == ScenarioView::created(command@, timeout),
        scenario@.wf(),
{
    let scenario = Scenario {
        command,
        timeout,
        exit_code: 0,
        acts: Vec::new(),
        phase: Phase::NotStarted,
        pointer: 0,
    };
    assert(scenario@.acts =~= Seq::empty());
    scenario
}

impl Scenario {
    /// Appends `act`. Nothing else changes: no act is decided.
    fn append(&mut self, act: Act)
        requires
            act@.is_fresh(),
            act@.wf(),
        ensures
            final(self)@ == old(self)@.appended(act@),
            old(self)@.wf() ==> final(self)@.wf(),
    {
        proof {
            lemma_append_keeps_the_rest(self@, act@);
        }
        self.acts.push(act);
        assert(self@.acts =~= old(self)@.acts.push(act@));
    }

    /// Appends an act of the kind `kind` that expects `expected`, and says
    /// whether it did: a value that does not fit the kind is refused, and
    /// the scenario stays as it is.
    pub fn push(&mut self, kind: ActKind, expected: ExpectedValue) -> (accepted: bool)
        ensures
            accepted == kind.admits(expected@),
            final(self)@ == if accepted {
                old(self)@.appended(ActView::fresh(kind, expected@))
            } else {
                old(self)@
            },
            old(self)@.wf() ==> final(self)@.wf(),
    {
        match Act::new(kind, expected) {
            Some(act) => {
                self.append(act);
                true
            },
            None => false,
        }
    }

    /// Appends an act that expects `value` as the next output.
    pub fn expect(&mut self, value: String) -> (this: &Self)
        ensures
            final(self)@ == old(self)@.appended(
                ActView::fresh(ActKind::Expect, ValueView::Text(value@)),
            ),
            this@ == final(self)@,
            old(self)@.wf() ==> final(self)@.wf(),
    {
        self.append(Act::expect(value));
        self
    }

    /// Appends an act that expects `value` as the next output on the error
    /// stream.
    pub fn expect_error(&mut self, value: String) -> (this: &Self)
        ensures
            final(self)@ == old(self)@.appended(
                ActView::fresh(ActKind::ExpectError, ValueView::Text(value@)),
            ),
            this@ == final(self)@,
            old(self)@.wf() ==> final(self)@.wf(),
    {
        self.append(Act::expect_error(value));
        self
    }

    /// Appends an act that expects the process to end with the status `code`.
    pub fn exit_code(&mut self, code: i32) -> (this: &Self)
        ensures
            final(self)@ == old(self)@.appended(
                ActView::fresh(ActKind::ExitCode, ValueView::Integer(code)),
            ),
            this@ == final(self)@,
            old(self)@.wf() ==> final(self)@.wf(),
    {
        self.append(Act::exit_code(code));
        self
    }

    /// Appends an act that sends `value` to the process as a line of input.
    pub fn input(&mut self, value: String) -> (this: &Self)
        ensures
            final(self)@ == old(self)@.appended(
                ActView::fresh(ActKind::Input, ValueView::Text(value@)),
            ),
            this@ == final(self)@,
            old(self)@.wf() ==> final(self)@.wf(),
    {
        self.append(Act::input(value));
        self
    }

    /// The command line that is sent to the shell.
    pub fn command(&self) -> (command: &String)
        ensures
            command@ == self@.command,
    {
        &self.command
    }

    /// The bound on each read, in seconds.
    pub fn timeout(&self) -> (timeout: u32)
        ensures
            timeout == self@.timeout,
    {
        self.timeout
    }

    /// The bound on each read, in milliseconds.
    pub fn timeout_millis(&self) -> (millis: u64)
        ensures
            millis == self@.timeout * 1000,
    {
        let seconds: u64 = self.timeout.into();
        seconds * 1000
    }

    /// The acts, in the order in which they were appended.
    pub fn acts(&self) -> (acts: &Vec<Act>)
        ensures
            acts@.map_values(|act: Act| act@) == self@.acts,
    {
        &self.acts
    }

    /// The exit status that was observed last in the current run; zero where
    /// none was.
    pub fn last_exit_code(&self) -> (code: i32)
        ensures
            code == self@.exit_code,
    {
        self.exit_code
    }

    /// How far the run has come.
    pub fn phase(&self) -> (phase: &Phase)
        ensures
            phase@ == self@.phase,
    {
        &self.phase
    }

    /// The number of acts that the current run has decided.
    pub fn pointer(&self) -> (pointer: usize)
        ensures
            pointer == self@.pointer,
    {
        self.pointer
    }

    /// Whether a run was completed with every act satisfied.
    pub fn status(&self) -> (status: bool)
        ensures
            status == self@.passed(),
    {
        match self.phase {
            Phase::Completed => true,
            _ => false,
        }
    }

    /// The verdict of the run as it stands.
    pub fn result(&self) -> (result: ScenarioResult)
        ensures
            result.ok == self@.passed(),
    {
        ScenarioResult { ok: self.status() }
    }

    /// Whether a run has ended.
    pub fn is_over(&self) -> (over: bool)
        ensures
            over == self@.phase.over(),
    {
        match self.phase {
            Phase::Completed => true,
            Phase::Failed(_) => true,
            _ => false,
        }
    }

    /// What the scenario asks of the session in its present state.
    pub fn request(&self) -> (action: Action)
        ensures
            action@ == self@.request(),
    {
        match self.phase {
            Phase::Spawning => Action::Spawn { timeout: self.timeout },
            Phase::Launching => Action::SendLine(self.command.clone()),
            Phase::Running => if self.pointer < self.acts.len() {
                self.acts[self.pointer].request()
            } else {
                Action::ReadOutput
            },
            _ => Action::Release,
        }
    }

    /// Starts a run: forgets every outcome, and asks for the shell.
    pub fn start(&mut self) -> (action: Action)
        ensures
            final(self)@ == old(self)@.started(),
            action@ == final(self)@.request(),
            final(self)@.coherent(),
            old(self)@.wf() ==> final(self)@.wf(),
    {
        proof {
            lemma_start_is_coherent(self@);
        }
        let count = self.acts.len();
        let mut i: usize = 0;
        while i < count
            invariant
                i <= count,
                count == self.acts@.len(),
                count == old(self).acts@.len(),
                forall|j: int|
                    0 <= j < i ==> (#[trigger] self.acts@[j])@ == old(self).acts@[j]@.reset(),
                forall|j: int|
                    i <= j < count ==> (#[trigger] self.acts@[j])@ == old(self).acts@[j]@,
                self.command == old(self).command,
                self.timeout == old(self).timeout,
            decreases count - i,
        {
            self.acts[i].reset();
            i += 1;
        }
        self.exit_code = 0;
        self.phase = Phase::Spawning;
        self.pointer = 0;
        assert(self@.acts =~= old(self)@.started().acts);
        Action::Spawn { timeout: self.timeout }
    }

    /// Takes the reply of the session to the last request while the acts are
    /// being decided.
    fn step_while_running(&mut self, reply: &SessionReply)
        requires
            old(self)@.phase is Running,
        ensures
            final(self)@ == old(self)@.after_while_running(reply@),
    {
        self.exit_code = reply.exit_code_after(self.exit_code);
        if self.pointer < self.acts.len() {
            let decided = self.acts[self.pointer].judge(reply);
            if decided {
                let act = &self.acts[self.pointer];
                let sent = match reply {
                    SessionReply::Ready => true,
                    _ => false,
                };
                let phase = if !act.ok() {
                    Phase::Failed(Failure::Mismatch)
                } else if act.kind() == ActKind::Input && !sent {
                    Phase::Failed(reply.failure())
                } else if self.pointer + 1 == self.acts.len() {
                    Phase::Completed
                } else {
                    Phase::Running
                };
                self.phase = phase;
                self.pointer = self.pointer + 1;
                assert(self@.acts =~= old(self)@.after_while_running(reply@).acts);
            } else {
                self.phase = Phase::Failed(reply.failure());
                assert(self@.acts =~= old(self)@.acts);
            }
        } else {
            let failure = match reply {
                SessionReply::Output(_) => Failure::Mismatch,
                _ => reply.failure(),
            };
            self.phase = Phase::Failed(failure);
        }
    }

    /// Takes the reply of the session to the last request, and says what the
    /// scenario asks next.
    pub fn step(&mut self, reply: &SessionReply) -> (action: Action)
        ensures
            final(self)@ == old(self)@.after(reply@),
            action@ == final(self)@.request(),
            old(self)@.coherent() ==> final(self)@.coherent(),
            old(self)@.wf() ==> final(self)@.wf(),
    {
        proof {
            lemma_step_keeps_the_invariant(self@, reply@);
        }
        match self.phase {
            Phase::Spawning => {
                self.exit_code = reply.exit_code_after(self.exit_code);
                self.phase = match reply {
                    SessionReply::Ready => Phase::Launching,
                    _ => Phase::Failed(Failure::Spawn),
                };
            },
            Phase::Launching => {
                self.exit_code = reply.exit_code_after(self.exit_code);
                self.phase = match reply {
                    SessionReply::Ready => Phase::Running,
                    _ => Phase::Failed(reply.failure()),
                };
            },
            Phase::Running => {
                self.step_while_running(reply);
            },
            _ => {},
        }
        self.request()
    }

    /// Runs the scenario from the start against a session that answers with
    /// `replies`, one for each request, and returns the verdict.
    ///
    /// The run stops where it ends or where the replies run out, whichever
    /// comes first; replies that are left over are not looked at.
    pub fn run(&mut self, replies: &Vec<SessionReply>) -> (result: ScenarioResult)
        ensures
            final(self)@ == old(self)@.ran(replies_view(replies@)),
            result.ok == final(self)@.passed(),
            final(self)@.coherent(),
            old(self)@.wf() ==> final(self)@.wf(),
    {
        let ghost script = replies_view(replies@);
        proof {
            lemma_run_keeps_the_invariant(self@, script);
        }
        self.start();
        assert(script.skip(0) =~= script);
        let mut i: usize = 0;
        while i < replies.len() && !self.is_over()
            invariant
                i <= replies.len(),
                script == replies_view(replies@),
                self@.after_all(script.skip(i as int)) == old(self)@.ran(script),
            decreases replies.len() - i,
        {
            proof {
                assert(script.skip(i as int).drop_first() =~= script.skip(i + 1));
            }
            self.step(&replies[i]);
            i += 1;
        }
        proof {
            if self@.phase.over() {
                lemma_nothing_follows_the_end(self@, script.skip(i as int));
            }
        }
        self.result()
    }
}

} // verus!
