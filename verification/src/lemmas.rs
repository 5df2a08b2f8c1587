//! What holds of every scenario and of every run, proved from the model in
//! [`crate::engine`].

use crate::act::{ActKind, ActView, ValueView};
use crate::engine::{PhaseView, ScenarioView};
use crate::session::{ActionView, FailureView, ReplyView};
use crate::text::{
    is_bare, is_blank, lemma_bare_text_is_kept, lemma_bare_texts_agree_only_when_equal,
    lemma_surrounding_white_space_is_ignored, text_agrees, trimmed,
};
use vstd::prelude::*;

verus! {

/// Builder calls keep what they are given and decide nothing: after any
/// number of them the scenario holds one act for each call, in the order of
/// the calls, each with its kind and expected value, not satisfied and with
/// nothing observed; and no run was started.
pub proof fn lemma_built_scenario_holds_fresh_acts_in_order(
    command: Seq<char>,
    timeout: u32,
    steps: Seq<(ActKind, ValueView)>,
)
    ensures
        ({
            let s = ScenarioView::built(command, timeout, steps);
            &&& s.command == command
            &&& s.timeout == timeout
            &&& s.phase is NotStarted
            &&& s.pointer == 0
            &&& s.acts.len() == steps.len()
            &&& forall|i: int|
                0 <= i < steps.len() ==> {
                    &&& (#[trigger] s.acts[i]).kind == steps[i].0
                    &&& s.acts[i].expected == steps[i].1
                    &&& s.acts[i].actual == steps[i].1.blank()
                    &&& !s.acts[i].ok
                    &&& s.acts[i].is_fresh()
                }
        }),
    decreases steps.len(),
{
    if steps.len() > 0 {
        lemma_built_scenario_holds_fresh_acts_in_order(command, timeout, steps.drop_last());
    }
}

/// A scenario that the builders made is coherent and, where each value fits
/// its kind (an exit status for `ExitCode`, a text for the other kinds), well
/// formed.
pub proof fn lemma_built_scenario_is_well_formed(
    command: Seq<char>,
    timeout: u32,
    steps: Seq<(ActKind, ValueView)>,
)
    ensures
        ScenarioView::built(command, timeout, steps).coherent(),
        (forall|i: int| 0 <= i < steps.len() ==> (#[trigger] steps[i]).0.admits(steps[i].1))
            ==> ScenarioView::built(command, timeout, steps).wf(),
{
    lemma_built_scenario_holds_fresh_acts_in_order(command, timeout, steps);
}

/// Appending an act changes nothing but the list of acts: the act stands
/// last, behind the acts that were there, and the run is where it was. An
/// act without an outcome keeps a coherent scenario coherent, and a well
/// formed one well formed where the act is well formed too.
pub proof fn lemma_append_keeps_the_rest(s: ScenarioView, act: ActView)
    ensures
        s.appended(act).acts.len() == s.acts.len() + 1,
        s.appended(act).acts.last() == act,
        forall|i: int| 0 <= i < s.acts.len() ==> s.appended(act).acts[i] == s.acts[i],
        s.appended(act).command == s.command,
        s.appended(act).timeout == s.timeout,
        s.appended(act).phase == s.phase,
        s.appended(act).pointer == s.pointer,
        s.appended(act).exit_code == s.exit_code,
        s.coherent() && act.is_fresh() ==> s.appended(act).coherent(),
        s.wf() && act.is_fresh() && act.wf() ==> s.appended(act).wf(),
{
}

/// Once a run has ended, replies change nothing, and nothing is asked of the
/// session but to end it.
pub proof fn lemma_nothing_follows_the_end(s: ScenarioView, replies: Seq<ReplyView>)
    requires
        s.phase.over(),
    ensures
        s.after_all(replies) == s,
        s.request() == ActionView::Release,
    decreases replies.len(),
{
    if replies.len() > 0 {
        lemma_nothing_follows_the_end(s, replies.drop_first());
    }
}

/// Replies can be taken in two parts: the state after all of them is the
/// state that the second part leaves when it follows the first.
pub proof fn lemma_replies_in_two_parts(
    s: ScenarioView,
    first: Seq<ReplyView>,
    second: Seq<ReplyView>,
)
    ensures
        s.after_all(first + second) == s.after_all(first).after_all(second),
    decreases first.len(),
{
    if first.len() > 0 {
        assert((first + second).drop_first() =~= first.drop_first() + second);
        lemma_replies_in_two_parts(s.after(first.first()), first.drop_first(), second);
    }
}

/// A reply never takes the pointer back, never changes command, timeout or
/// the number of acts, and never changes what an act is and expects.
pub proof fn lemma_step_keeps_the_script(s: ScenarioView, reply: ReplyView)
    ensures
        s.after(reply).pointer >= s.pointer,
        s.after(reply).command == s.command,
        s.after(reply).timeout == s.timeout,
        s.after(reply).acts.len() == s.acts.len(),
        forall|i: int|
            0 <= i < s.acts.len() ==> {
                &&& (#[trigger] s.after(reply).acts[i]).kind == s.acts[i].kind
                &&& s.after(reply).acts[i].expected == s.acts[i].expected
            },
{
}

/// Replies never take the pointer back, and never change command, timeout,
/// the number of acts, or what an act is and expects.
pub proof fn lemma_replies_keep_the_script(s: ScenarioView, replies: Seq<ReplyView>)
    ensures
        s.after_all(replies).pointer >= s.pointer,
        s.after_all(replies).command == s.command,
        s.after_all(replies).timeout == s.timeout,
        s.after_all(replies).acts.len() == s.acts.len(),
        forall|i: int|
            0 <= i < s.acts.len() ==> {
                &&& (#[trigger] s.after_all(replies).acts[i]).kind == s.acts[i].kind
                &&& s.after_all(replies).acts[i].expected == s.acts[i].expected
            },
    decreases replies.len(),
{
    if replies.len() > 0 {
        lemma_step_keeps_the_script(s, replies.first());
        lemma_replies_keep_the_script(s.after(replies.first()), replies.drop_first());
    }
}

/// The start of a run makes a scenario coherent, whatever state it was in,
/// and asks for the shell with the timeout of the scenario. It forgets every
/// outcome and changes nothing else of the acts.
pub proof fn lemma_start_is_coherent(s: ScenarioView)
    ensures
        s.started().coherent(),
        s.started().request() == (ActionView::Spawn { timeout: s.timeout }),
        s.started().command == s.command,
        s.started().timeout == s.timeout,
        s.started().acts.len() == s.acts.len(),
        forall|i: int|
            0 <= i < s.acts.len() ==> {
                &&& (#[trigger] s.started().acts[i]).kind == s.acts[i].kind
                &&& s.started().acts[i].expected == s.acts[i].expected
                &&& s.started().acts[i].is_fresh()
            },
        s.wf() ==> s.started().wf(),
{
}

/// A reply keeps a coherent scenario coherent, and a well formed one well
/// formed.
pub proof fn lemma_step_keeps_the_invariant(s: ScenarioView, reply: ReplyView)
    ensures
        s.coherent() ==> s.after(reply).coherent(),
        s.wf() ==> s.after(reply).wf(),
{
}

/// Replies keep a coherent scenario coherent, and a well formed one well
/// formed.
pub proof fn lemma_replies_keep_the_invariant(s: ScenarioView, replies: Seq<ReplyView>)
    ensures
        s.coherent() ==> s.after_all(replies).coherent(),
        s.wf() ==> s.after_all(replies).wf(),
    decreases replies.len(),
{
    if replies.len() > 0 {
        lemma_step_keeps_the_invariant(s, replies.first());
        lemma_replies_keep_the_invariant(s.after(replies.first()), replies.drop_first());
    }
}

/// Every state that a run from the start reaches is coherent, and is well
/// formed where the scenario was.
pub proof fn lemma_run_keeps_the_invariant(s: ScenarioView, replies: Seq<ReplyView>)
    ensures
        s.ran(replies).coherent(),
        s.wf() ==> s.ran(replies).wf(),
{
    lemma_start_is_coherent(s);
    lemma_replies_keep_the_invariant(s.started(), replies);
}

proof fn lemma_completed_run_decided_every_act(s: ScenarioView, replies: Seq<ReplyView>)
    requires
        s.phase is Completed ==> s.pointer == s.acts.len(),
    ensures
        s.after_all(replies).phase is Completed ==> s.after_all(replies).pointer
            == s.after_all(replies).acts.len(),
    decreases replies.len(),
{
    if replies.len() > 0 {
        lemma_completed_run_decided_every_act(s.after(replies.first()), replies.drop_first());
    }
}

/// The verdict follows from the outcomes of the acts: a run passes only if
/// the scenario has acts and every one of them was decided and is satisfied.
pub proof fn lemma_passed_run_satisfied_every_act(s: ScenarioView, replies: Seq<ReplyView>)
    requires
        s.ran(replies).passed(),
    ensures
        s.acts.len() > 0,
        s.ran(replies).pointer == s.acts.len(),
        forall|i: int| 0 <= i < s.acts.len() ==> (#[trigger] s.ran(replies).acts[i]).ok,
{
    lemma_run_keeps_the_invariant(s, replies);
    lemma_replies_keep_the_script(s.started(), replies);
    lemma_completed_run_decided_every_act(s.started(), replies);
}

/// A run that ended in a mismatch left the act that it decided last
/// unsatisfied, unless the scenario has no acts; every act before that one is
/// satisfied, and every act after it was not looked at.
pub proof fn lemma_mismatch_is_recorded_on_the_act(s: ScenarioView, replies: Seq<ReplyView>)
    requires
        s.ran(replies).phase == PhaseView::Failed(FailureView::Mismatch),
    ensures
        ({
            let t = s.ran(replies);
            &&& t.pointer == 0 <==> s.acts.len() == 0
            &&& t.pointer > 0 ==> !t.acts[t.pointer - 1].ok
            &&& forall|i: int| 0 <= i < t.pointer - 1 ==> (#[trigger] t.acts[i]).ok
            &&& forall|i: int| t.pointer <= i < t.acts.len() ==> (#[trigger] t.acts[i]).is_fresh()
        }),
{
    lemma_run_keeps_the_invariant(s, replies);
    lemma_replies_keep_the_script(s.started(), replies);
    lemma_mismatch_needs_a_decision_or_no_acts(s.started(), replies);
}

proof fn lemma_mismatch_needs_a_decision_or_no_acts(s: ScenarioView, replies: Seq<ReplyView>)
    requires
        s.coherent(),
        s.phase == PhaseView::Failed(FailureView::Mismatch) ==> (s.pointer == 0 <==> s.acts.len()
            == 0),
    ensures
        s.after_all(replies).phase == PhaseView::Failed(FailureView::Mismatch) ==> (s.after_all(
            replies,
        ).pointer == 0 <==> s.acts.len() == 0),
    decreases replies.len(),
{
    if replies.len() > 0 {
        lemma_step_keeps_the_invariant(s, replies.first());
        lemma_step_keeps_the_script(s, replies.first());
        lemma_mismatch_needs_a_decision_or_no_acts(s.after(replies.first()), replies.drop_first());
    }
}

/// The shell that does not start is fatal: whatever the session says in
/// place of "ready", the run has failed as a spawn failure, stays so, and no
/// act was looked at.
pub proof fn lemma_spawn_failure_is_fatal(
    s: ScenarioView,
    reply: ReplyView,
    later: Seq<ReplyView>,
)
    requires
        !(reply is Ready),
    ensures
        ({
            let t = s.ran(seq![reply] + later);
            &&& t.phase == PhaseView::Failed(FailureView::Spawn)
            &&& !t.passed()
            &&& t.pointer == 0
            &&& t.acts == s.started().acts
            &&& forall|i: int| 0 <= i < t.acts.len() ==> (#[trigger] t.acts[i]).is_fresh()
        }),
{
    let first = s.started().after(reply);
    lemma_replies_in_two_parts(s.started(), seq![reply], later);
    assert(s.started().after_all(seq![reply]) == first) by {
        reveal_with_fuel(ScenarioView::after_all, 2);
    }
    lemma_nothing_follows_the_end(first, later);
}

/// Once the shell runs and the command line is sent, the acts are decided
/// from the first on: the scenario asks what its first act asks or, where it
/// has no acts, for one read.
pub proof fn lemma_run_begins_with_the_command(s: ScenarioView)
    ensures
        s.ran(seq![ReplyView::Ready]).request() == ActionView::SendLine(s.command),
        s.ran(seq![ReplyView::Ready]).phase is Launching,
        s.ran(seq![ReplyView::Ready, ReplyView::Ready]).phase is Running,
        s.ran(seq![ReplyView::Ready, ReplyView::Ready]).pointer == 0,
        s.ran(seq![ReplyView::Ready, ReplyView::Ready]).acts == s.started().acts,
        s.acts.len() == 0 ==> s.ran(seq![ReplyView::Ready, ReplyView::Ready]).request()
            == ActionView::ReadOutput,
        s.acts.len() > 0 ==> s.ran(seq![ReplyView::Ready, ReplyView::Ready]).request()
            == s.acts[0].reset().request(),
{
    reveal_with_fuel(ScenarioView::after_all, 3);
}

/// A scenario without acts never passes. When the read that follows the
/// command line meets the end of output, the run has failed as such, with the
/// context that the session gave.
pub proof fn lemma_without_acts_no_run_passes(
    s: ScenarioView,
    replies: Seq<ReplyView>,
    expected: Seq<char>,
    got: Seq<char>,
    exit_code: Option<i32>,
)
    requires
        s.acts.len() == 0,
    ensures
        !s.ran(replies).passed(),
        ({
            let eof = ReplyView::Eof { expected, got, exit_code };
            let t = s.ran(seq![ReplyView::Ready, ReplyView::Ready, eof]);
            &&& t.phase == PhaseView::Failed(FailureView::EndOfOutput { expected, got, exit_code })
            &&& !t.passed()
        }),
{
    lemma_run_keeps_the_invariant(s, replies);
    lemma_replies_keep_the_script(s.started(), replies);
    let eof = ReplyView::Eof { expected, got, exit_code };
    let two = seq![ReplyView::Ready, ReplyView::Ready];
    lemma_run_begins_with_the_command(s);
    lemma_replies_in_two_parts(s.started(), two, seq![eof]);
    assert(two + seq![eof] =~= seq![ReplyView::Ready, ReplyView::Ready, eof]);
    reveal_with_fuel(ScenarioView::after_all, 2);
}

/// An expectation is decided by the output that is read for it: the trimmed
/// output is recorded on the act, and the act is satisfied exactly where
/// output and expected text agree. The run then passes exactly where they
/// agree and the act is the last one; where they disagree it has failed as a
/// mismatch.
pub proof fn lemma_expectation_is_decided_by_output(s: ScenarioView, observed: Seq<char>)
    requires
        s.phase is Running,
        s.has_current(),
        s.current().kind == ActKind::Expect || s.current().kind == ActKind::ExpectError,
        s.current().expected is Text,
    ensures
        ({
            let t = s.after(ReplyView::Output(observed));
            let agree = text_agrees(s.current().expected->Text_0, observed);
            let act = t.acts[s.pointer as int];
            &&& s.request() == if s.current().kind == ActKind::Expect {
                ActionView::ReadOutput
            } else {
                ActionView::ReadError
            }
            &&& act.ok == agree
            &&& act.actual == ValueView::Text(trimmed(observed))
            &&& act.kind == s.current().kind
            &&& act.expected == s.current().expected
            &&& t.pointer == s.pointer + 1
            &&& t.passed() <==> agree && s.pointer + 1 == s.acts.len()
            &&& t.phase is Running <==> agree && s.pointer + 1 < s.acts.len()
            &&& !agree <==> t.phase == PhaseView::Failed(FailureView::Mismatch)
        }),
{
}

/// Output that is the expected text with white space around it, however much,
/// satisfies an expectation; the run passes where the act is the last one.
pub proof fn lemma_expected_output_in_white_space_satisfies(
    s: ScenarioView,
    before: Seq<char>,
    after: Seq<char>,
)
    requires
        s.phase is Running,
        s.has_current(),
        s.current().kind == ActKind::Expect || s.current().kind == ActKind::ExpectError,
        s.current().expected is Text,
        is_blank(before),
        is_blank(after),
    ensures
        ({
            let expected = s.current().expected->Text_0;
            let t = s.after(ReplyView::Output(before + expected + after));
            &&& t.acts[s.pointer as int].ok
            &&& t.acts[s.pointer as int].actual == ValueView::Text(trimmed(expected))
            &&& t.passed() <==> s.pointer + 1 == s.acts.len()
            &&& !(t.phase is Failed)
        }),
{
    let expected = s.current().expected->Text_0;
    lemma_surrounding_white_space_is_ignored(before, expected, after);
    lemma_expectation_is_decided_by_output(s, before + expected + after);
}

/// Output that differs from the expected text fails an expectation, where
/// neither begins or ends with white space: matching is exact, so a letter in
/// the other case is a mismatch.
pub proof fn lemma_other_output_fails(s: ScenarioView, observed: Seq<char>)
    requires
        s.phase is Running,
        s.has_current(),
        s.current().kind == ActKind::Expect || s.current().kind == ActKind::ExpectError,
        s.current().expected is Text,
        is_bare(s.current().expected->Text_0),
        is_bare(observed),
        observed != s.current().expected->Text_0,
    ensures
        ({
            let t = s.after(ReplyView::Output(observed));
            &&& !t.acts[s.pointer as int].ok
            &&& t.acts[s.pointer as int].actual == ValueView::Text(observed)
            &&& t.phase == PhaseView::Failed(FailureView::Mismatch)
            &&& !t.passed()
        }),
{
    lemma_bare_texts_agree_only_when_equal(s.current().expected->Text_0, observed);
    lemma_bare_text_is_kept(observed);
    lemma_expectation_is_decided_by_output(s, observed);
}

/// An expected exit status is decided by the end of the process, however the
/// session reports it: by a reply that says so, or by the end of output with
/// the status of the process. The status is recorded on the act and as the
/// last one observed, and the act is satisfied exactly where it is the
/// expected status. The run then passes exactly where it is and the act is
/// the last one; where it is another status the run has failed as a mismatch.
pub proof fn lemma_exit_status_is_decided_by_the_exit(s: ScenarioView, reply: ReplyView)
    requires
        s.phase is Running,
        s.has_current(),
        s.current().kind == ActKind::ExitCode,
        s.current().expected is Integer,
        reply.exit_status() is Some,
    ensures
        ({
            let t = s.after(reply);
            let code = reply.exit_status().unwrap();
            let agree = code == s.current().expected->Integer_0;
            let act = t.acts[s.pointer as int];
            &&& s.request() == ActionView::AwaitExit
            &&& act.ok == agree
            &&& act.actual == ValueView::Integer(code)
            &&& act.kind == s.current().kind
            &&& act.expected == s.current().expected
            &&& t.exit_code == code
            &&& t.pointer == s.pointer + 1
            &&& t.passed() <==> agree && s.pointer + 1 == s.acts.len()
            &&& t.phase is Running <==> agree && s.pointer + 1 < s.acts.len()
            &&& !agree <==> t.phase == PhaseView::Failed(FailureView::Mismatch)
        }),
{
}

/// Both ways in which a session can report the exit status of the process
/// decide an expected exit status alike.
pub proof fn lemma_exit_status_counts_however_reported(
    s: ScenarioView,
    code: i32,
    expected: Seq<char>,
    got: Seq<char>,
)
    requires
        s.phase is Running,
        s.has_current(),
        s.current().kind == ActKind::ExitCode,
        s.current().expected is Integer,
    ensures
        s.after(ReplyView::Eof { expected, got, exit_code: Some(code) }) == s.after(
            ReplyView::Exited(code),
        ),
{
}

/// An input checks nothing. The scenario asks for its text to be sent as a
/// line, and whatever the session replies, the act is satisfied and the
/// pointer moves past it. The run goes on where the line was written, and
/// has failed where it was not.
pub proof fn lemma_input_is_satisfied_by_any_reply(s: ScenarioView, reply: ReplyView)
    requires
        s.phase is Running,
        s.has_current(),
        s.current().kind == ActKind::Input,
        s.current().expected is Text,
    ensures
        ({
            let t = s.after(reply);
            let act = t.acts[s.pointer as int];
            &&& s.request() == ActionView::SendLine(s.current().expected->Text_0)
            &&& act.ok
            &&& act.actual == s.current().actual
            &&& t.pointer == s.pointer + 1
            &&& t.phase.over() <==> !(reply is Ready) || s.pointer + 1 == s.acts.len()
            &&& t.passed() <==> reply is Ready && s.pointer + 1 == s.acts.len()
            &&& !(reply is Ready) ==> t.phase == PhaseView::Failed(reply.failure())
        }),
{
}

/// The line of an input is asked for once. Where the run stands at an input
/// after some of the replies, it stands past that act after any more of
/// them: the act is never the current one again.
pub proof fn lemma_input_is_sent_once(
    s: ScenarioView,
    replies: Seq<ReplyView>,
    sooner: int,
    later: int,
)
    requires
        0 <= sooner < later <= replies.len(),
        s.after_all(replies.take(sooner)).phase is Running,
        s.after_all(replies.take(sooner)).has_current(),
        s.after_all(replies.take(sooner)).current().kind == ActKind::Input,
    ensures
        s.after_all(replies.take(later)).pointer > s.after_all(replies.take(sooner)).pointer,
{
    let at = s.after_all(replies.take(sooner));
    let rest = replies.subrange(sooner, later);
    assert(replies.take(later) =~= replies.take(sooner) + rest);
    lemma_replies_in_two_parts(s, replies.take(sooner), rest);
    lemma_replies_keep_the_script(at.after(rest.first()), rest.drop_first());
}

/// A read that fails ends the run at once. Where the run waits for output
/// and the session replies with anything else, or waits for the end of the
/// process and the reply carries no exit status, the run has failed: as the
/// end of output where the reply is one, as a failure of the session
/// otherwise. The act is left as it was, and nothing more is asked of the
/// session but to end it.
pub proof fn lemma_failed_read_ends_the_run(s: ScenarioView, reply: ReplyView)
    requires
        s.phase is Running,
        s.has_current(),
        match s.current().kind {
            ActKind::Expect | ActKind::ExpectError => !(reply is Output),
            ActKind::ExitCode => reply.exit_status() is None,
            ActKind::Input => false,
        },
    ensures
        ({
            let t = s.after(reply);
            &&& t.phase == PhaseView::Failed(reply.failure())
            &&& reply is Eof <==> t.phase->Failed_0 is EndOfOutput
            &&& !(reply is Eof) <==> t.phase->Failed_0 is Session
            &&& !t.passed()
            &&& t.acts == s.acts
            &&& t.pointer == s.pointer
            &&& t.request() == ActionView::Release
        }),
{
}

} // verus!
