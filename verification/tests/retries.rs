use short_future::driver::{retry, Event};
use short_future::machine::Verdict;

fn str_eq(a: &str, b: &str) -> Result<(), ()> {
    if a == b {
        Ok(())
    } else {
        Err(())
    }
}

struct WrapStr<'a>(&'a str);

fn expected_journal(attempts: usize) -> Vec<Event> {
    let mut journal = Vec::new();
    for i in 0..attempts {
        journal.push(Event::Created(i));
        journal.push(Event::Released(i));
    }
    journal
}

#[test]
fn test_retries_closure() {
    // Imagine this data is large and expensive to clone.
    let data = format!("11 transaction");
    let report = retry(100, |session| {
        let outer: &String = &data;
        str_eq(session, outer)
    });
    assert_eq!(report.verdict, Verdict::Success(11));
}

#[test]
fn test_retries_fn() {
    let data = format!("11 transaction");
    let report = retry(100, |session| str_eq(session, &data));
    assert_eq!(report.verdict, Verdict::Success(11));
}

#[test]
fn test_retries_semi_inline() {
    let data = format!("11 transaction");
    let report = retry(100, |session| {
        if WrapStr(session).0 == &data {
            Ok(())
        } else {
            Err(())
        }
    });
    assert_eq!(report.verdict, Verdict::Success(11));
}

#[test]
fn test_retries_fully_inline() {
    let data = format!("11 transaction");
    let report = retry(100, |session| {
        if session == &data {
            Ok(())
        } else {
            Err(())
        }
    });
    assert_eq!(report.verdict, Verdict::Success(11));
}

#[test]
fn success_at_eleven_uses_twelve_resources() {
    let data = "11 transaction";
    let seen = std::cell::RefCell::new(Vec::new());
    let report = retry(100, |session| {
        seen.borrow_mut().push(session.to_string());
        str_eq(session, data)
    });
    assert_eq!(report.verdict, Verdict::Success(11));
    assert_eq!(report.journal.len(), 24);
    assert_eq!(report.journal, expected_journal(12));
    let seen = seen.into_inner();
    assert_eq!(seen.len(), 12);
    for (i, label) in seen.iter().enumerate() {
        assert_eq!(label, &format!("{i} transaction"));
    }
}

#[test]
fn no_match_exhausts_after_one_hundred() {
    let data = "999 transaction";
    let calls = std::cell::Cell::new(0usize);
    let report = retry(100, |session| {
        calls.set(calls.get() + 1);
        str_eq(session, data)
    });
    assert_eq!(report.verdict, Verdict::Exhausted);
    assert_eq!(calls.get(), 100);
    assert_eq!(report.journal.len(), 200);
    assert_eq!(report.journal, expected_journal(100));
}

#[test]
fn success_at_every_index_below_every_small_maximum() {
    for max in 1usize..8 {
        for k in 0..max {
            let wanted = format!("{k} transaction");
            let calls = std::cell::Cell::new(0usize);
            let report = retry(max, |session| {
                calls.set(calls.get() + 1);
                str_eq(session, &wanted)
            });
            assert_eq!(report.verdict, Verdict::Success(k));
            assert_eq!(calls.get(), k + 1);
            assert_eq!(report.journal, expected_journal(k + 1));
        }
    }
}

#[test]
fn all_failures_exhaust_every_small_maximum() {
    for max in 1usize..8 {
        let calls = std::cell::Cell::new(0usize);
        let report = retry(max, |_session| {
            calls.set(calls.get() + 1);
            Err(())
        });
        assert_eq!(report.verdict, Verdict::Exhausted);
        assert_eq!(calls.get(), max);
        assert_eq!(report.journal, expected_journal(max));
    }
}

#[test]
fn success_on_the_last_attempt_is_no_exhaustion() {
    let report = retry(100, |session| str_eq(session, "99 transaction"));
    assert_eq!(report.verdict, Verdict::Success(99));
    assert_eq!(report.journal, expected_journal(100));
}

#[test]
fn immediate_success_uses_one_resource() {
    let report = retry(1, |_session| Ok(()));
    assert_eq!(report.verdict, Verdict::Success(0));
    assert_eq!(report.journal, vec![Event::Created(0), Event::Released(0)]);
}

#[test]
fn single_attempt_that_fails_is_exhaustion() {
    let report = retry(1, |_session| Err(()));
    assert_eq!(report.verdict, Verdict::Exhausted);
    assert_eq!(report.journal, vec![Event::Created(0), Event::Released(0)]);
}

#[test]
fn each_release_stands_just_before_the_next_creation() {
    let report = retry(100, |session| str_eq(session, "40 transaction"));
    let journal = report.journal;
    for i in 0usize..40 {
        let released = journal.iter().position(|e| *e == Event::Released(i)).unwrap();
        let created_next = journal.iter().position(|e| *e == Event::Created(i + 1)).unwrap();
        assert_eq!(released + 1, created_next);
        let releases = journal.iter().filter(|e| **e == Event::Released(i)).count();
        assert_eq!(releases, 1);
    }
}
