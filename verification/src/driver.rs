//! The retry driver: one resource per attempt, created, lent to the
//! operation, and released before the next attempt begins.

use vstd::prelude::*;
use crate::label::{label_text, transaction_label};
use crate::machine::{next_state, outcome_of, transition, verdict_of, Outcome, State, Verdict};

verus! {

/// Something the driver did with an attempt's resource.
#[derive(Clone, Copy, Debug, PartialEq, Eq, Structural)]
pub enum Event {
    /// The resource of attempt `i` was created.
    Created(usize),
    /// The resource of attempt `i` was released.
    Released(usize),
}

/// The journal of `n` complete attempts: each resource is created and then
/// released, in the order of the attempts.
pub open spec fn lifecycle(n: nat) -> Seq<Event>
    decreases n,
{
    if n == 0 {
        Seq::empty()
    } else {
        lifecycle((n - 1) as nat).push(Event::Created((n - 1) as usize)).push(
            Event::Released((n - 1) as usize),
        )
    }
}

/// The mathematical content of a driver.
pub struct Session {
    /// The maximum number of attempts.
    pub max: usize,
    /// Where the state machine stands.
    pub state: State,
    /// Whether the current attempt's resource exists and is not yet released.
    pub holding: bool,
    /// Every creation and release so far, in the order in which they happened.
    pub journal: Seq<Event>,
}

impl Session {
    /// The journal is that of the attempts made so far, and a resource is
    /// held only while an attempt is under way.
    pub open spec fn wf(self) -> bool {
        &&& self.max >= 1
        &&& match self.state {
            State::Attempting(i) => {
                &&& i < self.max
                &&& self.journal == if self.holding {
                    lifecycle(i as nat).push(Event::Created(i))
                } else {
                    lifecycle(i as nat)
                }
            },
            State::Succeeded(i) => {
                &&& i < self.max
                &&& !self.holding
                &&& self.journal == lifecycle(i as nat + 1)
            },
            State::Exhausted => {
                &&& !self.holding
                &&& self.journal == lifecycle(self.max as nat)
            },
        }
    }

    /// The session of a driver that has done nothing yet.
    pub open spec fn fresh(max: usize) -> Session {
        Session { max, state: State::Attempting(0), holding: false, journal: Seq::empty() }
    }

    /// The index that `begin` grants: that of the current attempt, if one is
    /// due and its resource does not exist yet.
    pub open spec fn granted(self) -> Option<usize> {
        match self.state {
            State::Attempting(i) => if self.holding {
                None
            } else {
                Some(i)
            },
            _ => None,
        }
    }

    /// The session after `begin`.
    pub open spec fn begun(self) -> Session {
        match self.granted() {
            Some(i) => Session {
                holding: true,
                journal: self.journal.push(Event::Created(i)),
                ..self
            },
            None => self,
        }
    }

    /// The index of the resource that is held, if one is.
    pub open spec fn held(self) -> Option<usize> {
        match self.state {
            State::Attempting(i) => if self.holding {
                Some(i)
            } else {
                None
            },
            _ => None,
        }
    }

    /// The session after `settle` with `outcome`.
    pub open spec fn settled(self, outcome: Outcome) -> Session {
        match self.held() {
            Some(i) => Session {
                state: next_state(self.state, outcome, self.max),
                holding: false,
                journal: self.journal.push(Event::Released(i)),
                ..self
            },
            None => self,
        }
    }

    /// The session after one whole attempt that reported `outcome`.
    pub open spec fn attempted(self, outcome: Outcome) -> Session {
        self.begun().settled(outcome)
    }

    /// The session after one whole attempt for each of `outcomes`, in order.
    pub open spec fn driven(self, outcomes: Seq<Outcome>) -> Session
        decreases outcomes.len(),
    {
        if outcomes.len() == 0 {
            self
        } else {
            self.driven(outcomes.drop_last()).attempted(outcomes.last())
        }
    }
}

/// The decisions of the retry loop, and the journal of what it did.
pub struct Driver {
    max: usize,
    state: State,
    holding: bool,
    journal: Vec<Event>,
}

impl View for Driver {
    type V = Session;

    closed spec fn view(&self) -> Session {
        Session {
            max: self.max,
            state: self.state,
            holding: self.holding,
            journal: self.journal@,
        }
    }
}

impl Driver {
    /// A driver for at most `max` attempts, about to make the first.
    pub fn new(max: usize) -> (driver: Driver)
        requires
            max >= 1,
        ensures
            driver@ == Session::fresh(max),
            driver@.wf(),
    {
        Driver { max, state: State::Attempting(0), holding: false, journal: Vec::new() }
    }

    /// The maximum number of attempts.
    pub fn max(&self) -> (max: usize)
        ensures
            max == self@.max,
    {
        self.max
    }

    /// Where the state machine stands.
    pub fn state(&self) -> (state: State)
        ensures
            state == self@.state,
    {
        self.state
    }

    /// Whether a resource is held at the moment.
    pub fn is_holding(&self) -> (holding: bool)
        ensures
            holding == self@.holding,
    {
        self.holding
    }

    /// Every creation and release so far, oldest first.
    pub fn journal(&self) -> (journal: &Vec<Event>)
        ensures
            journal@ == self@.journal,
    {
        &self.journal
    }

    /// The verdict, once the driver has stopped.
    pub fn verdict(&self) -> (verdict: Option<Verdict>)
        ensures
            verdict == verdict_of(self@.state),
    {
        self.state.verdict()
    }

    /// Gives the journal out and ends the driver.
    pub fn into_journal(self) -> (journal: Vec<Event>)
        ensures
            journal@ == self@.journal,
    {
        self.journal
    }

    /// Starts the current attempt: records the creation of its resource and
    /// returns its index. Where no attempt is due, or the current one has
    /// its resource already, nothing changes and nothing is granted.
    pub fn begin(&mut self) -> (granted: Option<usize>)
        requires
            old(self)@.wf(),
        ensures
            final(self)@.wf(),
            final(self)@ == old(self)@.begun(),
            granted == old(self)@.granted(),
    {
        match self.state {
            State::Attempting(i) => {
                if self.holding {
                    None
                } else {
                    self.journal.push(Event::Created(i));
                    self.holding = true;
                    Some(i)
                }
            },
            _ => None,
        }
    }

    /// Ends the current attempt with what the operation reported: records
    /// the release of its resource, then moves the state machine on and
    /// returns the new state. Where no resource is held, nothing changes and
    /// nothing is returned.
    pub fn settle(&mut self, outcome: Outcome) -> (next: Option<State>)
        requires
            old(self)@.wf(),
        ensures
            final(self)@.wf(),
            final(self)@ == old(self)@.settled(outcome),
            next == match old(self)@.held() {
                Some(_) => Some(next_state(old(self)@.state, outcome, old(self)@.max)),
                None => None,
            },
    {
        match self.state {
            State::Attempting(i) => {
                if self.holding {
                    self.journal.push(Event::Released(i));
                    self.holding = false;
                    self.state = transition(self.state, outcome, self.max);
                    Some(self.state)
                } else {
                    None
                }
            },
            _ => None,
        }
    }
}

/// What a finished run hands back: the verdict and the journal.
pub struct Report {
    /// How the run ended.
    pub verdict: Verdict,
    /// Every creation and release of the run, oldest first.
    pub journal: Vec<Event>,
}

/// The number of attempts that a run with this verdict has made.
pub open spec fn attempts_made(verdict: Verdict, max: usize) -> nat {
    match verdict {
        Verdict::Success(k) => k as nat + 1,
        Verdict::Exhausted => max as nat,
    }
}

/// `text` is the label of one of the first `max` attempts.
pub open spec fn labels_attempt(text: Seq<char>, max: usize) -> bool {
    exists|i: usize| i < max && text == #[trigger] label_text(i as nat)
}

/// `operation`, handed the label of attempt `index`, can report `outcome`.
pub open spec fn answers<F: Fn(&str) -> Result<(), ()>>(
    operation: F,
    index: usize,
    outcome: Outcome,
) -> bool {
    exists|label: &str, result: Result<(), ()>|
        label@ == label_text(index as nat) && #[trigger] operation.ensures((label,), result)
            && outcome_of(result) == outcome
}

/// What a run of `operation` over at most `max` attempts may report: the
/// verdict names the first attempt on which the operation succeeded, every
/// earlier one having failed, or is `Exhausted` where all `max` attempts
/// failed; the journal is that of exactly the attempts made.
pub open spec fn reports<F: Fn(&str) -> Result<(), ()>>(
    operation: F,
    max: usize,
    report: Report,
) -> bool {
    &&& report.journal@ == lifecycle(attempts_made(report.verdict, max))
    &&& match report.verdict {
        Verdict::Success(k) => {
            &&& k < max
            &&& answers(operation, k, Outcome::Success)
            &&& forall|j: usize| j < k ==> answers(operation, j, Outcome::Failure)
        },
        Verdict::Exhausted => forall|j: usize|
            j < max ==> answers(operation, j, Outcome::Failure),
    }
}

/// Runs `operation` on the resource of one attempt after another, each one
/// created for its attempt and released before the next, until an attempt
/// succeeds or `max` attempts have failed.
///
/// The operation must accept the label of every attempt below `max`.
pub fn retry<F: Fn(&str) -> Result<(), ()>>(max: usize, operation: F) -> (report: Report)
    requires
        max >= 1,
        forall|label: &str| labels_attempt(label@, max) ==> #[trigger] operation.requires((label,)),
    ensures
        reports(operation, max, report),
{
    let mut driver = Driver::new(max);
    loop
        invariant
            max >= 1,
            driver@.wf(),
            driver@.max == max,
            !driver@.holding,
            forall|label: &str|
                labels_attempt(label@, max) ==> #[trigger] operation.requires((label,)),
            match driver@.state {
                State::Attempting(i) => forall|j: usize| j < i ==> answers(operation, j, Outcome::Failure),
                State::Succeeded(k) => {
                    &&& answers(operation, k, Outcome::Success)
                    &&& forall|j: usize| j < k ==> answers(operation, j, Outcome::Failure)
                },
                State::Exhausted => forall|j: usize| j < max ==> answers(operation, j, Outcome::Failure),
            },
        decreases
            match driver@.state {
                State::Attempting(i) => max - i,
                _ => 0,
            },
    {
        match driver.state() {
            State::Succeeded(k) => {
                return Report { verdict: Verdict::Success(k), journal: driver.into_journal() };
            },
            State::Exhausted => {
                return Report { verdict: Verdict::Exhausted, journal: driver.into_journal() };
            },
            State::Attempting(_) => {},
        }
        if let Some(i) = driver.begin() {
            // The resource lives for this block alone: it is gone before
            // its release is recorded.
            let result = {
                let resource = transaction_label(i);
                assert(labels_attempt(resource@, max));
                operation(resource.as_str())
            };
            let outcome = Outcome::of(result);
            assert(answers(operation, i, outcome));
            driver.settle(outcome);
        }
    }
}

} // verus!
