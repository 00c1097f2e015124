//! The attempt state machine: which attempt is running, and how an outcome
//! moves the driver on.

use vstd::prelude::*;

verus! {

/// What the operation reported for one attempt.
#[derive(Clone, Copy, Debug, PartialEq, Eq, Structural)]
pub enum Outcome {
    /// The attempt succeeded; the loop stops.
    Success,
    /// The attempt failed; the loop goes on while attempts remain.
    Failure,
}

/// Where the driver stands.
#[derive(Clone, Copy, Debug, PartialEq, Eq, Structural)]
pub enum State {
    /// Attempt `i` is the current one.
    Attempting(usize),
    /// Attempt `i` succeeded. Terminal.
    Succeeded(usize),
    /// Every attempt failed. Terminal.
    Exhausted,
}

/// The terminal result handed to the caller.
#[derive(Clone, Copy, Debug, PartialEq, Eq, Structural)]
pub enum Verdict {
    /// The attempt with this index succeeded.
    Success(usize),
    /// No attempt succeeded within the maximum count.
    Exhausted,
}

/// The state that follows `state` once the current attempt has reported
/// `outcome`, with at most `max` attempts in all. Terminal states stay.
pub open spec fn next_state(state: State, outcome: Outcome, max: usize) -> State {
    match state {
        State::Attempting(i) => match outcome {
            Outcome::Success => State::Succeeded(i),
            Outcome::Failure => if i + 1 < max {
                State::Attempting((i + 1) as usize)
            } else {
                State::Exhausted
            },
        },
        State::Succeeded(i) => State::Succeeded(i),
        State::Exhausted => State::Exhausted,
    }
}

/// The outcome that an operation's result stands for.
pub open spec fn outcome_of(result: Result<(), ()>) -> Outcome {
    if result is Ok {
        Outcome::Success
    } else {
        Outcome::Failure
    }
}

/// The verdict that a state stands for, if it is terminal.
pub open spec fn verdict_of(state: State) -> Option<Verdict> {
    match state {
        State::Attempting(_) => None,
        State::Succeeded(i) => Some(Verdict::Success(i)),
        State::Exhausted => Some(Verdict::Exhausted),
    }
}

impl Outcome {
    /// Reads the operation's result as an outcome.
    pub fn of(result: Result<(), ()>) -> (outcome: Outcome)
        ensures
            outcome == outcome_of(result),
    {
        match result {
            Ok(_) => Outcome::Success,
            Err(_) => Outcome::Failure,
        }
    }
}

impl State {
    /// Whether an attempt is still to be run from this state.
    pub fn is_attempting(&self) -> (b: bool)
        ensures
            b == (verdict_of(*self) is None),
    {
        match self {
            State::Attempting(_) => true,
            _ => false,
        }
    }

    /// The verdict, once the state is terminal.
    pub fn verdict(&self) -> (v: Option<Verdict>)
        ensures
            v == verdict_of(*self),
    {
        match self {
            State::Attempting(_) => None,
            State::Succeeded(i) => Some(Verdict::Success(*i)),
            State::Exhausted => Some(Verdict::Exhausted),
        }
    }
}

/// Moves the state machine on by one reported outcome.
pub fn transition(state: State, outcome: Outcome, max: usize) -> (next: State)
    ensures
        next == next_state(state, outcome, max),
{
    match state {
        State::Attempting(i) => match outcome {
            Outcome::Success => State::Succeeded(i),
            Outcome::Failure => if max > 0 && i < max - 1 {
                State::Attempting(i + 1)
            } else {
                State::Exhausted
            },
        },
        State::Succeeded(i) => State::Succeeded(i),
        State::Exhausted => State::Exhausted,
    }
}

} // verus!
