//! What holds of every run of the driver, stated over its sessions.

use vstd::prelude::*;
use crate::driver::{answers, lifecycle, reports, Event, Report, Session};
use crate::machine::{Outcome, State, Verdict};

verus! {

/// How many resources a journal says were created.
pub open spec fn created_count(journal: Seq<Event>) -> nat
    decreases journal.len(),
{
    if journal.len() == 0 {
        0
    } else {
        created_count(journal.drop_last()) + if journal.last() is Created {
            1nat
        } else {
            0nat
        }
    }
}

/// How many resources a journal says were released.
pub open spec fn released_count(journal: Seq<Event>) -> nat
    decreases journal.len(),
{
    if journal.len() == 0 {
        0
    } else {
        released_count(journal.drop_last()) + if journal.last() is Released {
            1nat
        } else {
            0nat
        }
    }
}

/// The event that stands at position `p` of every journal that reaches so
/// far: creations at the even places, releases at the odd ones, attempt by
/// attempt.
pub open spec fn slot(p: int) -> Event {
    if p % 2 == 0 {
        Event::Created((p / 2) as usize)
    } else {
        Event::Released((p / 2) as usize)
    }
}

/// The journal of `n` complete attempts has two entries for each attempt,
/// each at its slot, and counts `n` creations and `n` releases.
pub proof fn lifecycle_shape(n: nat)
    ensures
        lifecycle(n).len() == 2 * n,
        forall|p: int| 0 <= p < 2 * n ==> #[trigger] lifecycle(n)[p] == slot(p),
        created_count(lifecycle(n)) == n,
        released_count(lifecycle(n)) == n,
    decreases n,
{
    if n > 0 {
        let m = (n - 1) as nat;
        lifecycle_shape(m);
        let half = lifecycle(m).push(Event::Created(m as usize));
        let whole = half.push(Event::Released(m as usize));
        assert(whole == lifecycle(n));
        assert(whole.drop_last() =~= half);
        assert(half.drop_last() =~= lifecycle(m));
        assert(created_count(half) == m + 1);
        assert(released_count(half) == m);
        assert(created_count(whole) == m + 1);
        assert(released_count(whole) == m + 1);
        assert forall|p: int| 0 <= p < 2 * n implies #[trigger] lifecycle(n)[p] == slot(p) by {
            if p < 2 * m {
                assert(lifecycle(n)[p] == lifecycle(m)[p]);
            }
        }
    }
}

/// Every entry of a well-formed session's journal stands at its slot, and
/// belongs to an attempt below the maximum: the journal is a prefix of
/// create 0, release 0, create 1, release 1, and so on.
pub proof fn journal_alternates(session: Session, p: int)
    requires
        session.wf(),
        0 <= p < session.journal.len(),
    ensures
        session.journal[p] == slot(p),
        p / 2 < session.max,
{
    match session.state {
        State::Attempting(i) => {
            lifecycle_shape(i as nat);
            if p < 2 * i {
                assert(lifecycle(i as nat)[p] == slot(p));
            }
        },
        State::Succeeded(i) => {
            lifecycle_shape(i as nat + 1);
            assert(lifecycle(i as nat + 1)[p] == slot(p));
        },
        State::Exhausted => {
            lifecycle_shape(session.max as nat);
            assert(lifecycle(session.max as nat)[p] == slot(p));
        },
    }
}

/// No two resources overlap: wherever a journal records the creation of the
/// resource of attempt `i + 1`, the entry just before it is the release of
/// the resource of attempt `i`, and no release of that resource stands
/// anywhere else.
pub proof fn release_precedes_next_create(session: Session, i: usize, created_at: int)
    requires
        session.wf(),
        i < usize::MAX,
        0 <= created_at < session.journal.len(),
        session.journal[created_at] == Event::Created((i + 1) as usize),
    ensures
        created_at >= 1,
        session.journal[created_at - 1] == Event::Released(i),
        forall|q: int|
            0 <= q < session.journal.len() && #[trigger] session.journal[q] == Event::Released(i)
                ==> q == created_at - 1,
{
    journal_alternates(session, created_at);
    assert(created_at == 2 * (i + 1));
    journal_alternates(session, created_at - 1);
    assert forall|q: int|
        0 <= q < session.journal.len() && #[trigger] session.journal[q] == Event::Released(
            i,
        ) implies q == created_at - 1 by {
        journal_alternates(session, q);
    }
}

/// After `n` failed attempts, with `n` below the maximum, the driver is
/// about to make attempt `n`, holds nothing, and has created and released
/// exactly the resources of the attempts before.
pub proof fn failures_keep_attempting(max: usize, outcomes: Seq<Outcome>)
    requires
        max >= 1,
        outcomes.len() < max,
        forall|j: int| 0 <= j < outcomes.len() ==> outcomes[j] == Outcome::Failure,
    ensures
        Session::fresh(max).driven(outcomes) == (Session {
            max,
            state: State::Attempting(outcomes.len() as usize),
            holding: false,
            journal: lifecycle(outcomes.len()),
        }),
    decreases outcomes.len(),
{
    if outcomes.len() > 0 {
        failures_keep_attempting(max, outcomes.drop_last());
    }
}

/// If the operation fails on the attempts before `k` and succeeds on
/// attempt `k`, the driver stops with success at `k`, having created
/// exactly `k + 1` resources and released exactly `k + 1`.
pub proof fn success_after_failures(max: usize, k: usize, outcomes: Seq<Outcome>)
    requires
        max >= 1,
        k < max,
        outcomes.len() == k + 1,
        forall|j: int| 0 <= j < k ==> outcomes[j] == Outcome::Failure,
        outcomes[k as int] == Outcome::Success,
    ensures
        Session::fresh(max).driven(outcomes) == (Session {
            max,
            state: State::Succeeded(k),
            holding: false,
            journal: lifecycle(k as nat + 1),
        }),
        created_count(Session::fresh(max).driven(outcomes).journal) == k + 1,
        released_count(Session::fresh(max).driven(outcomes).journal) == k + 1,
{
    failures_keep_attempting(max, outcomes.drop_last());
    lifecycle_shape(k as nat + 1);
}

/// If the operation fails on all `max` attempts, the driver stops
/// exhausted, having created exactly `max` resources and released exactly
/// `max`.
pub proof fn exhaustion_after_all_failures(max: usize, outcomes: Seq<Outcome>)
    requires
        max >= 1,
        outcomes.len() == max,
        forall|j: int| 0 <= j < max ==> outcomes[j] == Outcome::Failure,
    ensures
        Session::fresh(max).driven(outcomes) == (Session {
            max,
            state: State::Exhausted,
            holding: false,
            journal: lifecycle(max as nat),
        }),
        created_count(Session::fresh(max).driven(outcomes).journal) == max,
        released_count(Session::fresh(max).driven(outcomes).journal) == max,
{
    failures_keep_attempting(max, outcomes.drop_last());
    lifecycle_shape(max as nat);
}

/// Once the driver has stopped, nothing more is created or released,
/// whatever is reported to it.
pub proof fn stopped_stays(session: Session, outcomes: Seq<Outcome>)
    requires
        session.state is Succeeded || session.state is Exhausted,
    ensures
        session.begun() == session,
        session.driven(outcomes) == session,
    decreases outcomes.len(),
{
    if outcomes.len() > 0 {
        stopped_stays(session, outcomes.drop_last());
    }
}

/// Whatever is reported, a well-formed session stays well-formed.
pub proof fn driven_stays_wf(session: Session, outcomes: Seq<Outcome>)
    requires
        session.wf(),
    ensures
        session.driven(outcomes).wf(),
    decreases outcomes.len(),
{
    if outcomes.len() > 0 {
        driven_stays_wf(session, outcomes.drop_last());
    }
}

/// A run over an operation that cannot succeed before attempt `k` and
/// cannot fail on attempt `k` reports success at `k`, with exactly `k + 1`
/// resources created and `k + 1` released.
pub proof fn first_success_is_reported<F: Fn(&str) -> Result<(), ()>>(
    operation: F,
    max: usize,
    k: usize,
    report: Report,
)
    requires
        k < max,
        reports(operation, max, report),
        forall|j: usize| j < k ==> !answers(operation, j, Outcome::Success),
        !answers(operation, k, Outcome::Failure),
    ensures
        report.verdict == Verdict::Success(k),
        report.journal@ == lifecycle(k as nat + 1),
        created_count(report.journal@) == k + 1,
        released_count(report.journal@) == k + 1,
{
    lifecycle_shape(k as nat + 1);
}

/// A run over an operation that cannot succeed on any of the `max` attempts
/// reports exhaustion, with exactly `max` resources created and `max`
/// released.
pub proof fn failure_throughout_is_exhaustion<F: Fn(&str) -> Result<(), ()>>(
    operation: F,
    max: usize,
    report: Report,
)
    requires
        reports(operation, max, report),
        forall|j: usize| j < max ==> !answers(operation, j, Outcome::Success),
    ensures
        report.verdict == Verdict::Exhausted,
        report.journal@ == lifecycle(max as nat),
        created_count(report.journal@) == max,
        released_count(report.journal@) == max,
{
    lifecycle_shape(max as nat);
}

} // verus!
