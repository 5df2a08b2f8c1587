//! Acts: the steps of a scenario, each one expectation or one input.

use crate::session::{Action, ActionView, ReplyView, SessionReply};
use crate::text::{text_agrees, text_matches, trim_text, trimmed};
use vstd::pervasive::unreached;
use vstd::prelude::*;

verus! {

/// What an act does.
#[derive(Clone, Copy, Debug, PartialEq, Eq, Structural)]
pub enum ActKind {
    /// The next output of the process must be a given text.
    Expect,
    /// The next output on the error stream of the process must be a given text.
    ExpectError,
    /// The process must end with a given exit status.
    ExitCode,
    /// A given text is sent to the process as a line of input.
    Input,
}

/// A value that an act expects or has observed: a text or an exit status.
#[derive(Debug, PartialEq, Eq)]
pub enum ExpectedValue {
    Text(String),
    Integer(i32),
}

impl Clone for ExpectedValue {
    fn clone(&self) -> (copy: Self)
        ensures
            copy@ == self@,
    {
        match self {
            ExpectedValue::Text(s) => ExpectedValue::Text(s.clone()),
            ExpectedValue::Integer(n) => ExpectedValue::Integer(*n),
        }
    }
}

/// The mathematical form of an [`ExpectedValue`].
pub enum ValueView {
    Text(Seq<char>),
    Integer(i32),
}

impl View for ExpectedValue {
    type V = ValueView;

    open spec fn view(&self) -> ValueView {
        match self {
            ExpectedValue::Text(s) => ValueView::Text(s@),
            ExpectedValue::Integer(n) => ValueView::Integer(*n),
        }
    }
}

impl ValueView {
    /// The empty value of the same variant: the empty text, or zero.
    pub open spec fn blank(self) -> ValueView {
        match self {
            ValueView::Text(_) => ValueView::Text(Seq::empty()),
            ValueView::Integer(_) => ValueView::Integer(0),
        }
    }

    /// Whether both values are of the same variant.
    pub open spec fn same_variant(self, other: ValueView) -> bool {
        self is Text <==> other is Text
    }
}

impl ActKind {
    /// Whether an act of this kind holds a value of the variant of `value`:
    /// an exit status for `ExitCode`, a text for the other kinds.
    pub open spec fn admits(self, value: ValueView) -> bool {
        self == ActKind::ExitCode <==> value is Integer
    }
}

/// The mathematical form of an [`Act`].
pub struct ActView {
    pub kind: ActKind,
    pub expected: ValueView,
    pub actual: ValueView,
    pub ok: bool,
}

impl ActView {
    /// The act as a builder call makes it: nothing observed, not satisfied.
    pub open spec fn fresh(kind: ActKind, expected: ValueView) -> ActView {
        ActView { kind, expected, actual: expected.blank(), ok: false }
    }

    /// The act with its outcome forgotten.
    pub open spec fn reset(self) -> ActView {
        ActView::fresh(self.kind, self.expected)
    }

    /// Whether no outcome is recorded on the act.
    pub open spec fn is_fresh(self) -> bool {
        self == self.reset()
    }

    /// The invariant of an act: its kind decides the variant of the expected
    /// value, and the observed value is of that variant too.
    pub open spec fn wf(self) -> bool {
        &&& self.kind.admits(self.expected)
        &&& self.actual.same_variant(self.expected)
    }

    /// What the act asks of the session: a read for an expectation, the end
    /// of the process for an exit status, a line to write for an input.
    pub open spec fn request(self) -> ActionView {
        match self.kind {
            ActKind::Expect => ActionView::ReadOutput,
            ActKind::ExpectError => ActionView::ReadError,
            ActKind::ExitCode => ActionView::AwaitExit,
            ActKind::Input => match self.expected {
                ValueView::Text(text) => ActionView::SendLine(text),
                ValueView::Integer(_) => arbitrary(),
            },
        }
    }

    /// The act as `reply` decides it, or `None` where `reply` does not decide
    /// it.
    ///
    /// An expectation is decided by output: the trimmed output is recorded,
    /// and the act is satisfied where it agrees with the expected text. An
    /// exit status is decided by any reply that carries the status of the
    /// process, the end of output with a known status among them: the status
    /// is recorded, and the act is satisfied where it is the expected one.
    /// An input checks nothing: whatever the reply, it is satisfied and
    /// records nothing.
    pub open spec fn judged(self, reply: ReplyView) -> Option<ActView> {
        match self.kind {
            ActKind::Expect | ActKind::ExpectError => match (reply, self.expected) {
                (ReplyView::Output(observed), ValueView::Text(expected)) => Some(
                    ActView {
                        actual: ValueView::Text(trimmed(observed)),
                        ok: text_agrees(expected, observed),
                        ..self
                    },
                ),
                _ => None,
            },
            ActKind::ExitCode => match (reply.exit_status(), self.expected) {
                (Some(code), ValueView::Integer(expected)) => Some(
                    ActView { actual: ValueView::Integer(code), ok: code == expected, ..self },
                ),
                _ => None,
            },
            ActKind::Input => Some(ActView { ok: true, ..self }),
        }
    }
}

/// One step of a scenario: its kind, the value it expects and, once it has
/// been decided, the value that was observed and whether the act is satisfied.
#[derive(Debug)]
pub struct Act {
    kind: ActKind,
    expected: ExpectedValue,
    actual: ExpectedValue,
    ok: bool,
}

impl View for Act {
    type V = ActView;

    closed spec fn view(&self) -> ActView {
        ActView { kind: self.kind, expected: self.expected@, actual: self.actual@, ok: self.ok }
    }
}

impl Clone for Act {
    fn clone(&self) -> (copy: Self)
        ensures
            copy@ == self@,
    {
        proof {
            use_type_invariant(self);
        }
        Act {
            kind: self.kind,
            expected: self.expected.clone(),
            actual: self.actual.clone(),
            ok: self.ok,
        }
    }
}

impl Act {
    #[verifier::type_invariant]
    spec fn inv(self) -> bool {
        self@.wf()
    }

    /// An act of the kind `kind` that expects `expected`, where the value
    /// fits the kind: an exit status for `ExitCode`, a text for the other
    /// kinds. Otherwise there is no such act.
    pub fn new(kind: ActKind, expected: ExpectedValue) -> (act: Option<Act>)
        ensures
            act.is_some() == kind.admits(expected@),
            act matches Some(act) ==> act@ == ActView::fresh(kind, expected@),
    {
        match (kind, expected) {
            (ActKind::ExitCode, ExpectedValue::Integer(code)) => Some(Act::exit_code(code)),
            (ActKind::ExitCode, ExpectedValue::Text(_)) => None,
            (_, ExpectedValue::Integer(_)) => None,
            (ActKind::Expect, ExpectedValue::Text(text)) => Some(Act::expect(text)),
            (ActKind::ExpectError, ExpectedValue::Text(text)) => Some(Act::expect_error(text)),
            (ActKind::Input, ExpectedValue::Text(text)) => Some(Act::input(text)),
        }
    }

    /// An act that expects `text` as the next output.
    pub fn expect(text: String) -> (act: Act)
        ensures
            act@ == ActView::fresh(ActKind::Expect, ValueView::Text(text@)),
    {
        Act {
            kind: ActKind::Expect,
            expected: ExpectedValue::Text(text),
            actual: ExpectedValue::Text(String::new()),
            ok: false,
        }
    }

    /// An act that expects `text` as the next output on the error stream.
    pub fn expect_error(text: String) -> (act: Act)
        ensures
            act@ == ActView::fresh(ActKind::ExpectError, ValueView::Text(text@)),
    {
        Act {
            kind: ActKind::ExpectError,
            expected: ExpectedValue::Text(text),
            actual: ExpectedValue::Text(String::new()),
            ok: false,
        }
    }

    /// An act that expects the process to end with the status `code`.
    pub fn exit_code(code: i32) -> (act: Act)
        ensures
            act@ == ActView::fresh(ActKind::ExitCode, ValueView::Integer(code)),
    {
        Act {
            kind: ActKind::ExitCode,
            expected: ExpectedValue::Integer(code),
            actual: ExpectedValue::Integer(0),
            ok: false,
        }
    }

    /// An act that sends `text` to the process as a line of input.
    pub fn input(text: String) -> (act: Act)
        ensures
            act@ == ActView::fresh(ActKind::Input, ValueView::Text(text@)),
    {
        Act {
            kind: ActKind::Input,
            expected: ExpectedValue::Text(text),
            actual: ExpectedValue::Text(String::new()),
            ok: false,
        }
    }

    /// The kind of the act.
    pub fn kind(&self) -> (kind: ActKind)
        ensures
            kind == self@.kind,
            self@.wf(),
    {
        proof {
            use_type_invariant(self);
        }
        self.kind
    }

    /// The value that the act expects.
    pub fn expected(&self) -> (value: &ExpectedValue)
        ensures
            value@ == self@.expected,
            self@.wf(),
    {
        proof {
            use_type_invariant(self);
        }
        &self.expected
    }

    /// The value that was observed when the act was decided; until then the
    /// empty value.
    pub fn actual(&self) -> (value: &ExpectedValue)
        ensures
            value@ == self@.actual,
            self@.wf(),
    {
        proof {
            use_type_invariant(self);
        }
        &self.actual
    }

    /// Whether the act is satisfied.
    pub fn ok(&self) -> (ok: bool)
        ensures
            ok == self@.ok,
            self@.wf(),
    {
        proof {
            use_type_invariant(self);
        }
        self.ok
    }

    /// Forgets the outcome of the act.
    pub fn reset(&mut self)
        ensures
            final(self)@ == old(self)@.reset(),
    {
        proof {
            use_type_invariant(&*self);
        }
        let blank = match &self.expected {
            ExpectedValue::Text(_) => ExpectedValue::Text(String::new()),
            ExpectedValue::Integer(_) => ExpectedValue::Integer(0),
        };
        self.actual = blank;
        self.ok = false;
    }

    /// What the act asks of the session.
    pub fn request(&self) -> (action: Action)
        ensures
            action@ == self@.request(),
    {
        match self.kind {
            ActKind::Expect => Action::ReadOutput,
            ActKind::ExpectError => Action::ReadError,
            ActKind::ExitCode => Action::AwaitExit,
            ActKind::Input => match &self.expected {
                ExpectedValue::Text(text) => Action::SendLine(text.clone()),
                ExpectedValue::Integer(_) => {
                    proof {
                        use_type_invariant(self);
                    }
                    unreached()
                },
            },
        }
    }

    /// Decides the act by `reply`, where `reply` decides it, and says whether
    /// it did.
    pub fn judge(&mut self, reply: &SessionReply) -> (decided: bool)
        ensures
            decided == old(self)@.judged(reply@).is_some(),
            final(self)@ == match old(self)@.judged(reply@) {
                Some(act) => act,
                None => old(self)@,
            },
    {
        proof {
            use_type_invariant(&*self);
        }
        match self.kind {
            ActKind::Expect | ActKind::ExpectError => match (reply, &self.expected) {
                (SessionReply::Output(observed), ExpectedValue::Text(expected)) => {
                    let ok = text_matches(expected.as_str(), observed.as_str());
                    self.actual = ExpectedValue::Text(trim_text(observed.as_str()));
                    self.ok = ok;
                    true
                },
                _ => false,
            },
            ActKind::ExitCode => match (reply.exit_status(), &self.expected) {
                (Some(code), ExpectedValue::Integer(expected)) => {
                    let ok = code == *expected;
                    self.actual = ExpectedValue::Integer(code);
                    self.ok = ok;
                    true
                },
                _ => false,
            },
            ActKind::Input => {
                self.ok = true;
                true
            },
        }
    }
}

} // verus!
