use vstd::prelude::*;
use crate::catalog::{Catalog, CatalogModel};
use crate::error::DbError;
use crate::routine::{Notice, Outcome, Step, add_effect, after, done, failed, run, run_from, step_effect};
use crate::statement::{Probe, Statement};

verus! {

/// Where a session stands within an `AddIfMissing` step.
#[derive(Clone, Copy, Debug, PartialEq, Eq, Structural)]
pub enum Phase {
    /// At the start of a step; for `AddIfMissing`, the probe is due.
    Probing,
    /// The probe found the column missing: the addition is due.
    Adding,
    /// The column was added: the diagnostic line is due.
    Announcing,
}

/// What the caller is asked to do next.
#[derive(Clone, Copy, Debug, PartialEq, Eq, Structural)]
pub enum Action {
    Execute(Statement),
    Ask(Probe),
    Emit(Notice),
    Finished,
    Failed(DbError),
}

/// What the caller reports back.
#[derive(Clone, Copy, Debug, PartialEq, Eq, Structural)]
pub enum Event {
    /// The statement ran, or the line was written.
    Completed,
    /// The probe returned this first row, or no row.
    Answered(Option<bool>),
    /// The statement or the probe failed.
    Errored(DbError),
}

pub ghost struct SessionModel {
    pub steps: Seq<Step>,
    pub pc: int,
    pub phase: Phase,
    pub failure: Option<DbError>,
}

/// The action a session in state `s` asks for.
pub open spec fn action_spec(s: SessionModel) -> Action {
    if s.failure is Some {
        Action::Failed(s.failure->Some_0)
    } else if s.pc < 0 || s.pc >= s.steps.len() {
        Action::Finished
    } else {
        match s.steps[s.pc] {
            Step::Run(st) => Action::Execute(st),
            Step::Say(n) => Action::Emit(n),
            Step::AddIfMissing(c) => match s.phase {
                Phase::Probing => Action::Ask(Probe::ColumnExists(c)),
                Phase::Adding => Action::Execute(Statement::AddColumn(c)),
                Phase::Announcing => Action::Emit(Notice::Added(c)),
            },
        }
    }
}

/// The state after the pending action completed.
pub open spec fn completed_spec(s: SessionModel) -> SessionModel {
    if s.steps[s.pc] is AddIfMissing && s.phase == Phase::Adding {
        SessionModel { phase: Phase::Announcing, ..s }
    } else {
        SessionModel { pc: s.pc + 1, phase: Phase::Probing, ..s }
    }
}

/// How an event moves the session. A finished or failed session stays as
/// it is, and so it does on an event that does not answer its action.
pub open spec fn advance_spec(s: SessionModel, ev: Event) -> SessionModel {
    match action_spec(s) {
        Action::Finished => s,
        Action::Failed(_) => s,
        Action::Ask(_) => match ev {
            Event::Errored(e) => SessionModel { failure: Some(e), ..s },
            Event::Answered(a) => if a == Some(true) {
                SessionModel { pc: s.pc + 1, phase: Phase::Probing, ..s }
            } else {
                SessionModel { phase: Phase::Adding, ..s }
            },
            Event::Completed => s,
        },
        _ => match ev {
            Event::Errored(e) => SessionModel { failure: Some(e), ..s },
            Event::Completed => completed_spec(s),
            Event::Answered(_) => s,
        },
    }
}

/// Drives a list of steps one action at a time.
pub struct Session {
    steps: Vec<Step>,
    pc: usize,
    phase: Phase,
    failure: Option<DbError>,
}

impl View for Session {
    type V = SessionModel;

    closed spec fn view(&self) -> SessionModel {
        SessionModel {
            steps: self.steps@,
            pc: self.pc as int,
            phase: self.phase,
            failure: self.failure,
        }
    }
}

impl Session {
    pub closed spec fn wf(&self) -> bool {
        self.pc <= self.steps@.len()
    }

    /// A session at the first step of `steps`.
    pub fn new(steps: Vec<Step>) -> (r: Session)
        ensures
            r.wf(),
            r@ == (SessionModel { steps: steps@, pc: 0, phase: Phase::Probing, failure: None }),
    {
        Session { steps, pc: 0, phase: Phase::Probing, failure: None }
    }

    /// The action that is due.
    pub fn next_action(&self) -> (r: Action)
        requires
            self.wf(),
        ensures
            r == action_spec(self@),
    {
        if let Some(e) = self.failure {
            return Action::Failed(e);
        }
        if self.pc >= self.steps.len() {
            return Action::Finished;
        }
        match self.steps[self.pc] {
            Step::Run(st) => Action::Execute(st),
            Step::Say(n) => Action::Emit(n),
            Step::AddIfMissing(c) => match self.phase {
                Phase::Probing => Action::Ask(Probe::ColumnExists(c)),
                Phase::Adding => Action::Execute(Statement::AddColumn(c)),
                Phase::Announcing => Action::Emit(Notice::Added(c)),
            },
        }
    }

    /// Takes the caller's report on the pending action.
    pub fn handle(&mut self, ev: Event)
        requires
            old(self).wf(),
        ensures
            final(self).wf(),
            final(self)@ == advance_spec(old(self)@, ev),
    {
        if self.failure.is_some() || self.pc >= self.steps.len() {
            return;
        }
        match self.next_action() {
            Action::Finished => {},
            Action::Failed(_) => {},
            Action::Ask(_) => match ev {
                Event::Errored(e) => self.failure = Some(e),
                Event::Answered(a) => {
                    if a == Some(true) {
                        self.pc = self.pc + 1;
                        self.phase = Phase::Probing;
                    } else {
                        self.phase = Phase::Adding;
                    }
                },
                Event::Completed => {},
            },
            _ => match ev {
                Event::Errored(e) => self.failure = Some(e),
                Event::Completed => {
                    let adding = match self.steps[self.pc] {
                        Step::AddIfMissing(_) => self.phase == Phase::Adding,
                        _ => false,
                    };
                    if adding {
                        self.phase = Phase::Announcing;
                    } else {
                        self.pc = self.pc + 1;
                        self.phase = Phase::Probing;
                    }
                },
                Event::Answered(_) => {},
            },
        }
    }
}

/// What remains to happen when a session in state `s` is driven against a
/// catalog in state `m`.
pub open spec fn remaining(s: SessionModel, m: CatalogModel) -> Outcome {
    if s.failure is Some {
        failed(s.failure->Some_0, m)
    } else if s.pc < 0 || s.pc >= s.steps.len() {
        done(m, Seq::empty())
    } else {
        match (s.steps[s.pc], s.phase) {
            (Step::AddIfMissing(c), Phase::Adding) => {
                let o = add_effect(m, c);
                if o.result is Err {
                    o
                } else {
                    after(o.notices, run_from(s.steps, s.pc + 1, o.catalog))
                }
            },
            (Step::AddIfMissing(c), Phase::Announcing) => after(
                seq![Notice::Added(c)],
                run_from(s.steps, s.pc + 1, m),
            ),
            _ => run_from(s.steps, s.pc, m),
        }
    }
}

/// A measure that every answered action lowers.
pub open spec fn progress(s: SessionModel) -> int {
    if s.failure is Some {
        0
    } else {
        3 * (s.steps.len() - s.pc) - match s.phase {
            Phase::Probing => 0int,
            Phase::Adding => 1int,
            Phase::Announcing => 2int,
        }
    }
}

pub open spec fn session_wf(s: SessionModel) -> bool {
    &&& 0 <= s.pc <= s.steps.len()
    &&& s.pc < s.steps.len() && s.phase != Phase::Probing ==> s.steps[s.pc] is AddIfMissing
}

impl Catalog {
    /// Runs `steps` against this catalog through a session, as a caller
    /// with a database session does: the catalog ends as `run` says, and on
    /// success the lines emitted are returned.
    pub fn run_steps(&mut self, steps: Vec<Step>) -> (r: Result<Vec<Notice>, DbError>)
        requires
            old(self).wf(),
        ensures
            final(self).wf(),
            final(self)@ == run(steps@, old(self)@).catalog,
            match r {
                Ok(ns) => run(steps@, old(self)@).result is Ok && ns@ == run(steps@, old(self)@).notices,
                Err(e) => run(steps@, old(self)@).result == Err::<(), DbError>(e),
            },
    {
        let ghost total = run(steps@, self@);
        let ghost start = self@;
        let ghost sv = steps@;
        let mut session = Session::new(steps);
        let mut notices: Vec<Notice> = Vec::new();
        proof {
            lemma_after_empty(total);
        }
        loop
            invariant
                self.wf(),
                session.wf(),
                session_wf(session@),
                after(notices@, remaining(session@, self@)) == total,
                total == run(sv, start),
                start == old(self)@,
                sv == steps@,
            decreases progress(session@),
        {
            let ghost s0 = session@;
            let ghost m0 = self@;
            let ghost n0 = notices@;
            match session.next_action() {
                Action::Execute(st) => {
                    let res = self.apply(st);
                    match res {
                        Ok(()) => session.handle(Event::Completed),
                        Err(e) => session.handle(Event::Errored(e)),
                    }
                    proof {
                        let pc = s0.pc;
                        let o = step_effect(m0, s0.steps[pc]);
                        lemma_after_empty(run_from(s0.steps, pc + 1, self@));
                        lemma_after_empty(remaining(session@, self@));
                        lemma_after_empty(o);
                    }
                },
                Action::Ask(p) => {
                    let a = self.answer(p);
                    session.handle(Event::Answered(Some(a)));
                    proof {
                        lemma_after_empty(run_from(s0.steps, s0.pc + 1, m0));
                    }
                },
                Action::Emit(n) => {
                    notices.push(n);
                    session.handle(Event::Completed);
                    proof {
                        lemma_after_after(n0, seq![n], run_from(s0.steps, s0.pc + 1, m0));
                        assert(n0 + seq![n] =~= notices@);
                    }
                },
                Action::Finished => {
                    assert(session@.pc >= session@.steps.len());
                    assert(remaining(session@, self@) == done(self@, Seq::empty()));
                    assert(notices@ + Seq::<Notice>::empty() =~= notices@);
                    return Ok(notices);
                },
                Action::Failed(e) => {
                    return Err(e);
                },
            }
        }
    }
}

pub proof fn lemma_after_empty(o: Outcome)
    ensures
        after(Seq::empty(), o) == o,
{
    assert(Seq::<Notice>::empty() + o.notices =~= o.notices);
}

pub proof fn lemma_after_after(a: Seq<Notice>, b: Seq<Notice>, o: Outcome)
    ensures
        after(a, after(b, o)) == after(a + b, o),
{
    assert(a + (b + o.notices) =~= (a + b) + o.notices);
}

} // verus!
