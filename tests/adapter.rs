use std::cell::Cell;
use std::future::Future;
use std::pin::Pin;
use std::rc::Rc;
use std::task::{Context, Poll};

use futures::task::noop_waker;
use repeating_future::{Phase, Polled, RepeatingFuture, UnderlyingObjectFuture};

type Op<O, T> = Pin<Box<dyn Future<Output = (O, T)>>>;

struct Counter {
    value: u64,
}

fn counter_getter(mut c: Counter) -> Op<u64, Counter> {
    Box::pin(async move {
        futures_lite::future::yield_now().await;
        c.value += 1;
        (c.value, c)
    })
}

fn poll_once<O, T>(op: &mut Op<O, T>) -> Polled<(O, T)> {
    let waker = noop_waker();
    let mut cx = Context::from_waker(&waker);
    match op.as_mut().poll(&mut cx) {
        Poll::Ready(v) => Polled::Ready(v),
        Poll::Pending => Polled::Pending,
    }
}

fn drive<T, O, G: Fn(T) -> Op<O, T>>(a: &mut RepeatingFuture<T, O, Op<O, T>, G>) -> Polled<O> {
    let outcome = poll_once(a.operation());
    a.poll(outcome)
}

fn next<T, O, G: Fn(T) -> Op<O, T>>(a: &mut RepeatingFuture<T, O, Op<O, T>, G>) -> O {
    for _ in 0..100 {
        if let Polled::Ready(o) = drive(a) {
            return o;
        }
    }
    panic!("operation never settled");
}

/// An operation that is pending a given number of times before it settles.
struct Countdown {
    pending: u32,
    object: Option<u64>,
}

impl Future for Countdown {
    type Output = (u64, u64);

    fn poll(mut self: Pin<&mut Self>, _cx: &mut Context<'_>) -> Poll<(u64, u64)> {
        if self.pending > 0 {
            self.pending -= 1;
            Poll::Pending
        } else {
            let object = self.object.take().expect("settled twice");
            Poll::Ready((object * 10, object + 1))
        }
    }
}

#[test]
fn increasing_counter_yields_in_order() {
    let mut a = RepeatingFuture::new(Counter { value: 0 }, counter_getter);
    let got: Vec<u64> = (0..3).map(|_| next(&mut a)).collect();
    assert_eq!(got, vec![1, 2, 3]);
}

#[test]
fn first_drive_is_pending_then_ready() {
    let mut a = RepeatingFuture::new(Counter { value: 41 }, counter_getter);
    assert_eq!(drive(&mut a), Polled::Pending);
    assert_eq!(drive(&mut a), Polled::Ready(42));
    assert_eq!(drive(&mut a), Polled::Pending);
    assert_eq!(drive(&mut a), Polled::Ready(43));
}

#[test]
fn pending_polls_call_the_getter_once_per_cycle() {
    let calls = Rc::new(Cell::new(0u32));
    let seen = calls.clone();
    let getter = move |object: u64| -> Countdown {
        seen.set(seen.get() + 1);
        Countdown { pending: 3, object: Some(object) }
    };
    let mut a: RepeatingFuture<u64, u64, Countdown, _> = RepeatingFuture::new(7, getter);
    let mut results = Vec::new();
    for cycle in 1..=2u32 {
        loop {
            let outcome = {
                let waker = noop_waker();
                let mut cx = Context::from_waker(&waker);
                match Pin::new(a.operation()).poll(&mut cx) {
                    Poll::Ready(v) => Polled::Ready(v),
                    Poll::Pending => Polled::Pending,
                }
            };
            assert_eq!(calls.get(), cycle);
            if let Polled::Ready(o) = a.poll(outcome) {
                results.push(o);
                break;
            }
        }
    }
    assert_eq!(results, vec![70, 80]);
    assert_eq!(calls.get(), 2);
}

#[test]
fn dropping_mid_cycle_releases_the_object() {
    let token = Rc::new(());
    let held = token.clone();
    let getter = |t: Rc<()>| -> Op<u64, Rc<()>> {
        Box::pin(async move {
            futures_lite::future::yield_now().await;
            (1, t)
        })
    };
    let mut a = RepeatingFuture::new(held, getter);
    assert_eq!(drive(&mut a), Polled::Pending);
    assert_eq!(Rc::strong_count(&token), 2);
    drop(a);
    assert_eq!(Rc::strong_count(&token), 1);
}

#[test]
fn dropping_idle_releases_the_object() {
    let token = Rc::new(());
    let getter = |t: Rc<()>| -> Op<u64, Rc<()>> { Box::pin(async move { (1, t) }) };
    let mut a = RepeatingFuture::new(token.clone(), getter);
    assert_eq!(drive(&mut a), Polled::Ready(1));
    assert_eq!(Rc::strong_count(&token), 2);
    drop(a);
    assert_eq!(Rc::strong_count(&token), 1);
}

#[test]
fn underlying_take_arms_once_and_reset_returns_to_idle() {
    let calls = Rc::new(Cell::new(0u32));
    let seen = calls.clone();
    let getter = move |object: u64| -> Countdown {
        seen.set(seen.get() + 1);
        Countdown { pending: 1, object: Some(object) }
    };
    let mut u = UnderlyingObjectFuture::new(5u64, getter);
    assert_eq!(u.take().object, Some(5));
    assert_eq!(u.take().object, Some(5));
    assert_eq!(calls.get(), 1);
    u.reset(9);
    assert_eq!(u.take().object, Some(9));
    assert_eq!(calls.get(), 2);
}

#[test]
fn settled_result_is_handed_out_unchanged() {
    let getter = |object: u64| -> Countdown { Countdown { pending: 0, object: Some(object) } };
    let mut a: RepeatingFuture<u64, u64, Countdown, _> = RepeatingFuture::new(3, getter);
    a.operation();
    assert_eq!(a.poll(Polled::Pending), Polled::Pending);
    assert_eq!(a.poll(Polled::Ready((99, 4))), Polled::Ready(99));
    assert_eq!(a.operation().object, Some(4));
}

#[test]
fn polled_reports_readiness() {
    assert!(Polled::Ready(1u8).is_ready());
    assert!(!Polled::<u8>::Pending.is_ready());
    let _phase: Phase<u8, u8> = Phase::Idle(0);
}
