//! The order of work in one run, as a state machine.
//!
//! A run binds each host value in turn and then evaluates the user code.
//! Encoding a value and running a script are done by the host around the
//! engine; every decision in between is taken here. The host feeds each
//! outcome back as an [`Event`] and performs the [`Action`] it gets, until
//! the action is [`Action::Finish`].
use vstd::prelude::*;
use crate::binding::{declaration, declaration_statement, declares};
use crate::error::RunnerError;
use crate::identifier::{
    is_ident_continue, is_valid_variable_name, lemma_foreign_char_rejected, valid_identifier,
};

verus! {

/// Where a run stands.
#[derive(PartialEq, Eq, Structural, Clone, Copy, Debug)]
pub enum Phase {
    /// Waiting for the encoded value of the binding at this index.
    Encoding(usize),
    /// Waiting for the engine to run the declaration of the binding at this
    /// index.
    Declaring(usize),
    /// Waiting for the engine to run the user code.
    Evaluating,
    /// The run is over; no further event is expected.
    Finished,
}

/// The outcome of the host's last piece of work.
#[derive(Debug)]
pub enum Event {
    /// The value of the binding asked for was encoded, or the encoder failed.
    Encoded(Result<String, serde_json::Error>),
    /// The engine ran the declaration statement, or failed to.
    Declared(Result<(), anyhow::Error>),
    /// The engine ran the user code and rendered its final value as text,
    /// or failed to.
    Evaluated(Result<String, anyhow::Error>),
}

/// What the host is to do next.
#[derive(Debug)]
pub enum Action {
    /// Encode the value of the binding at this index.
    Encode(usize),
    /// Run this declaration statement in the engine.
    Execute(String),
    /// Run this user code in the engine and render its final value as text.
    Evaluate(String),
    /// The run is over, with this result.
    Finish(Result<String, RunnerError>),
}

/// One run: the user code, the names of its bindings in the order in which
/// they are applied, and how far the run has gone.
pub struct Session {
    code: String,
    keys: Vec<String>,
    phase: Phase,
    declared: Ghost<Seq<Seq<char>>>,
    pending: Ghost<Seq<char>>,
}

impl Session {
    /// The user code.
    pub closed spec fn code(&self) -> Seq<char> {
        self.code@
    }

    /// The binding names, in the order in which they are applied.
    pub closed spec fn keys(&self) -> Seq<Seq<char>> {
        self.keys@.map_values(|k: String| k@)
    }

    /// Where the run stands.
    pub closed spec fn phase(&self) -> Phase {
        self.phase
    }

    /// The declaration statements that the engine has run so far, in order.
    pub closed spec fn declared(&self) -> Seq<Seq<char>> {
        self.declared@
    }

    /// The declaration statement handed to the engine and not yet answered.
    pub closed spec fn pending(&self) -> Seq<char> {
        self.pending@
    }

    /// The first `n` bindings are declared, one statement each, in order,
    /// and each of their names is a plain identifier.
    pub open spec fn bound_prefix(&self, n: int) -> bool {
        &&& 0 <= n <= self.keys().len()
        &&& self.declared().len() == n
        &&& forall|j: int|
            0 <= j < n ==> valid_identifier(#[trigger] self.keys()[j]) && declares(
                self.declared()[j],
                self.keys()[j],
            )
    }

    /// The invariant of a run.
    pub open spec fn wf(&self) -> bool {
        &&& self.keys().len() <= usize::MAX
        &&& match self.phase() {
            Phase::Encoding(i) => {
                &&& i < self.keys().len()
                &&& self.bound_prefix(i as int)
                &&& valid_identifier(self.keys()[i as int])
            },
            Phase::Declaring(i) => {
                &&& i < self.keys().len()
                &&& self.bound_prefix(i as int)
                &&& valid_identifier(self.keys()[i as int])
                &&& declares(self.pending(), self.keys()[i as int])
            },
            Phase::Evaluating => self.bound_prefix(self.keys().len() as int),
            Phase::Finished => true,
        }
    }

    /// The event is the one that the run waits for.
    pub open spec fn awaits(&self, event: Event) -> bool {
        match (self.phase(), event) {
            (Phase::Encoding(_), Event::Encoded(_)) => true,
            (Phase::Declaring(_), Event::Declared(_)) => true,
            (Phase::Evaluating, Event::Evaluated(_)) => true,
            _ => false,
        }
    }

    /// With `k` bindings applied, the run turns to the binding at index `k`:
    /// past the last one it evaluates the code; at a name that is not a plain
    /// identifier it stops; otherwise it asks for the value to be encoded.
    pub open spec fn opens(&self, k: int, a: Action) -> bool {
        if k == self.keys().len() {
            &&& self.phase() == Phase::Evaluating
            &&& a matches Action::Evaluate(c) && c@ == self.code()
        } else if !valid_identifier(self.keys()[k]) {
            &&& self.phase() == Phase::Finished
            &&& a matches Action::Finish(Err(RunnerError::InvalidVariableName(n)))
            &&& n@ == self.keys()[k]
        } else {
            &&& self.phase() == Phase::Encoding(k as usize)
            &&& a == Action::Encode(k as usize)
        }
    }

    /// One step of a run: from `s` with `event`, to `t` doing `a`.
    pub open spec fn transition(s: Session, event: Event, t: Session, a: Action) -> bool {
        &&& t.code() == s.code()
        &&& t.keys() == s.keys()
        &&& match (s.phase(), event) {
            (Phase::Encoding(i), Event::Encoded(Ok(enc))) => {
                &&& t.phase() == Phase::Declaring(i)
                &&& t.declared() == s.declared()
                &&& a matches Action::Execute(stmt)
                &&& stmt@ == declaration(s.keys()[i as int], enc@)
                &&& t.pending() == stmt@
            },
            (Phase::Encoding(_), Event::Encoded(Err(e))) => {
                &&& t.phase() == Phase::Finished
                &&& a == Action::Finish(Err(RunnerError::SerializationError(e)))
            },
            (Phase::Declaring(i), Event::Declared(Ok(()))) => {
                &&& t.declared() == s.declared().push(s.pending())
                &&& t.opens(i + 1, a)
            },
            (Phase::Declaring(_), Event::Declared(Err(e))) => {
                &&& t.phase() == Phase::Finished
                &&& a == Action::Finish(Err(RunnerError::ExecutionError(e)))
            },
            (Phase::Evaluating, Event::Evaluated(Ok(out))) => {
                &&& t.phase() == Phase::Finished
                &&& a == Action::Finish(Ok(out))
            },
            (Phase::Evaluating, Event::Evaluated(Err(e))) => {
                &&& t.phase() == Phase::Finished
                &&& a == Action::Finish(Err(RunnerError::ExecutionError(e)))
            },
            _ => false,
        }
    }

    /// Starts a run of `code` with bindings named `keys`, in that order, and
    /// gives the first thing to do: encode the first value, stop at a first
    /// name that is not a plain identifier, or, with no bindings, evaluate
    /// the code.
    pub fn new(code: String, keys: Vec<String>) -> (r: (Session, Action))
        ensures
            r.0.wf(),
            r.0.code() == code@,
            r.0.keys() == keys@.map_values(|k: String| k@),
            r.0.declared() == Seq::<Seq<char>>::empty(),
            r.0.opens(0, r.1),
    {
        let mut s = Session {
            code,
            keys,
            phase: Phase::Finished,
            declared: Ghost(Seq::empty()),
            pending: Ghost(Seq::empty()),
        };
        let a = s.open_binding(0);
        (s, a)
    }

    /// Turns to the binding at index `k`, the first `k` being declared.
    fn open_binding(&mut self, k: usize) -> (a: Action)
        requires
            old(self).bound_prefix(k as int),
        ensures
            final(self).wf(),
            final(self).code() == old(self).code(),
            final(self).keys() == old(self).keys(),
            final(self).declared() == old(self).declared(),
            final(self).pending() == old(self).pending(),
            final(self).opens(k as int, a),
    {
        if k == self.keys.len() {
            self.phase = Phase::Evaluating;
            Action::Evaluate(self.code.clone())
        } else if !is_valid_variable_name(self.keys[k].as_str()) {
            self.phase = Phase::Finished;
            Action::Finish(Err(RunnerError::InvalidVariableName(self.keys[k].clone())))
        } else {
            self.phase = Phase::Encoding(k);
            Action::Encode(k)
        }
    }
    /// Tells whether `event` is the one that the run waits for.
    pub fn expects(&self, event: &Event) -> (r: bool)
        ensures
            r == self.awaits(*event),
    {
        match (&self.phase, event) {
            (Phase::Encoding(_), Event::Encoded(_)) => true,
            (Phase::Declaring(_), Event::Declared(_)) => true,
            (Phase::Evaluating, Event::Evaluated(_)) => true,
            _ => false,
        }
    }

    /// Takes the outcome of the host's last piece of work and decides the
    /// next one.
    ///
    /// An encoded value becomes the declaration statement of its binding; a
    /// declaration that ran opens the next binding, or the code after the
    /// last one; the rendered value of the code ends the run. A failure of
    /// the encoder ends the run with `SerializationError`, one of the engine
    /// with `ExecutionError`.
    pub fn step(&mut self, event: Event) -> (a: Action)
        requires
            old(self).wf(),
            old(self).awaits(event),
        ensures
            final(self).wf(),
            Session::transition(*old(self), event, *final(self), a),
    {
        match event {
            Event::Encoded(Ok(enc)) => {
                // The run awaits this event only while encoding.
                let i = match self.phase {
                    Phase::Encoding(i) => i,
                    _ => 0,
                };
                let stmt = declaration_statement(self.keys[i].as_str(), enc.as_str());
                // The name was checked when its binding was opened, so the
                // statement is always built.
                match stmt {
                    Ok(stmt) => {
                        self.phase = Phase::Declaring(i);
                        self.pending = Ghost(stmt@);
                        Action::Execute(stmt)
                    },
                    Err(e) => {
                        self.phase = Phase::Finished;
                        Action::Finish(Err(e))
                    },
                }
            },
            Event::Encoded(Err(e)) => {
                self.phase = Phase::Finished;
                Action::Finish(Err(RunnerError::SerializationError(e)))
            },
            Event::Declared(Ok(())) => {
                // The run awaits this event only while declaring.
                let i = match self.phase {
                    Phase::Declaring(i) => i,
                    _ => 0,
                };
                let count = self.keys.len();
                proof {
                    assert(i < count);
                    let done = self.declared@.len();
                    let pushed = self.declared@.push(self.pending@);
                    assert forall|j: int| 0 <= j < done + 1 implies valid_identifier(#[trigger] self.keys()[j])
                        && declares(pushed[j], self.keys()[j]) by {
                        if j < done {
                            assert(pushed[j] == self.declared@[j]);
                        }
                    }
                    self.declared = Ghost(pushed);
                }
                self.open_binding(i + 1)
            },
            Event::Declared(Err(e)) => {
                self.phase = Phase::Finished;
                Action::Finish(Err(RunnerError::ExecutionError(e)))
            },
            Event::Evaluated(Ok(out)) => {
                self.phase = Phase::Finished;
                Action::Finish(Ok(out))
            },
            Event::Evaluated(Err(e)) => {
                self.phase = Phase::Finished;
                Action::Finish(Err(RunnerError::ExecutionError(e)))
            },
        }
    }
}

/// The user code is handed to the engine only after every binding has been
/// declared, one statement per binding, in the order of the bindings.
pub proof fn lemma_code_follows_bindings(s: Session, event: Event, t: Session, a: Action)
    requires
        s.wf(),
        Session::transition(s, event, t, a),
        a is Evaluate,
    ensures
        t.phase() == Phase::Evaluating,
        a->Evaluate_0@ == s.code(),
        t.declared().len() == t.keys().len(),
        forall|j: int|
            0 <= j < t.keys().len() ==> declares(#[trigger] t.declared()[j], t.keys()[j]),
{
    if let Phase::Declaring(i) = s.phase() {
        assert forall|j: int| 0 <= j < t.keys().len() implies declares(
            #[trigger] t.declared()[j],
            t.keys()[j],
        ) by {
            if j < i {
                assert(t.declared()[j] == s.declared()[j]);
            }
        }
    }
}

/// The value of a binding is asked for only once every earlier binding has
/// been declared, one statement each, in order.
pub proof fn lemma_bindings_one_at_a_time(s: Session, event: Event, t: Session, a: Action)
    requires
        s.wf(),
        Session::transition(s, event, t, a),
        a is Encode,
    ensures
        t.phase() == Phase::Encoding(a->Encode_0),
        t.declared().len() == a->Encode_0,
        forall|j: int|
            0 <= j < a->Encode_0 ==> declares(#[trigger] t.declared()[j], t.keys()[j]),
{
    if let Phase::Declaring(i) = s.phase() {
        assert forall|j: int| 0 <= j < a->Encode_0 implies declares(
            #[trigger] t.declared()[j],
            t.keys()[j],
        ) by {
            if j < i {
                assert(t.declared()[j] == s.declared()[j]);
            }
        }
    }
}

/// Every statement handed to the engine declares the binding whose turn it
/// is, under a name that is a plain identifier, with the encoded value as it
/// came from the encoder.
pub proof fn lemma_statement_names_identifier(s: Session, event: Event, t: Session, a: Action)
    requires
        s.wf(),
        Session::transition(s, event, t, a),
        a is Execute,
    ensures
        event matches Event::Encoded(Ok(enc)) && s.phase() matches Phase::Encoding(i)
            && valid_identifier(s.keys()[i as int])
            && a->Execute_0@ == declaration(s.keys()[i as int], enc@),
{
    if let Phase::Declaring(i) = s.phase() {
        assert(t.opens(i + 1, a));
    }
}

/// A run that reaches a binding whose name holds a character other than an
/// ASCII letter, an ASCII digit or `_` stops there with
/// `InvalidVariableName`: no statement made from that name, and not the user
/// code, is handed to the engine.
pub proof fn lemma_unsafe_name_stops_run(t: Session, k: int, a: Action, i: int)
    requires
        t.opens(k, a),
        0 <= k < t.keys().len(),
        0 <= i < t.keys()[k].len(),
        !is_ident_continue(t.keys()[k][i]),
    ensures
        t.phase() == Phase::Finished,
        a matches Action::Finish(Err(RunnerError::InvalidVariableName(n))) && n@ == t.keys()[k],
{
    lemma_foreign_char_rejected(t.keys()[k], i);
}

} // verus!
