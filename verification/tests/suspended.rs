use futures::executor::block_on;
use futures::future::BoxFuture;
use short_future::driver::{Driver, Event};
use short_future::label::transaction_label;
use short_future::machine::{Outcome, State, Verdict};
use std::future::Future;
use std::marker::PhantomData;

struct Short<'b, 'a: 'b, T>(BoxFuture<'b, T>, PhantomData<&'a ()>);

impl<'b, 'a: 'b, T, F: Future<Output = T> + Send + 'b> From<F> for Short<'b, 'a, T> {
    fn from(f: F) -> Self {
        Self(Box::pin(f), PhantomData)
    }
}

async fn drive<'a, F>(max: usize, f: F) -> (Verdict, Vec<Event>)
where
    F: for<'b> Fn(&'b str) -> Short<'b, 'a, Result<(), ()>>,
{
    let mut driver = Driver::new(max);
    loop {
        match driver.state() {
            State::Succeeded(k) => return (Verdict::Success(k), driver.into_journal()),
            State::Exhausted => return (Verdict::Exhausted, driver.into_journal()),
            State::Attempting(_) => {}
        }
        let i = driver.begin().unwrap();
        let transaction = transaction_label(i);
        let result = f(&transaction).0.await;
        drop(transaction);
        driver.settle(Outcome::of(result)).unwrap();
    }
}

async fn str_eq_later<'a, 'b>(a: &'a str, b: &'b str) -> Result<(), ()> {
    futures::future::ready(()).await;
    if a == b {
        Ok(())
    } else {
        Err(())
    }
}

#[test]
fn awaited_operation_succeeds_at_eleven() {
    let data = format!("11 transaction");
    let (verdict, journal) = block_on(drive(100, |session| str_eq_later(session, &data).into()));
    assert_eq!(verdict, Verdict::Success(11));
    assert_eq!(journal.len(), 24);
    assert_eq!(journal[22], Event::Created(11));
    assert_eq!(journal[23], Event::Released(11));
}

#[test]
fn awaited_operation_that_never_matches_exhausts() {
    let data = format!("999 transaction");
    let (verdict, journal) = block_on(drive(100, |session| str_eq_later(session, &data).into()));
    assert_eq!(verdict, Verdict::Exhausted);
    assert_eq!(journal.len(), 200);
    assert_eq!(journal[199], Event::Released(99));
}
