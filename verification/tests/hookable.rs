use std::sync::atomic::{AtomicUsize, Ordering};
use std::sync::Arc;
use std::task::{Wake, Waker};
use windows_launcher::hookable::Hookable;

struct Counter {
    hits: AtomicUsize,
}

impl Wake for Counter {
    fn wake(self: Arc<Self>) {
        self.hits.fetch_add(1, Ordering::SeqCst);
    }
}

fn counting_waker() -> (Arc<Counter>, Waker) {
    let counter = Arc::new(Counter { hits: AtomicUsize::new(0) });
    (counter.clone(), Waker::from(counter))
}

fn hits(counter: &Arc<Counter>) -> usize {
    counter.hits.load(Ordering::SeqCst)
}

#[test]
fn set_replaces_the_value() {
    let mut h = Hookable::new(3u32);
    assert_eq!(*h.get(), 3);
    h.set(9);
    assert_eq!(*h.get(), 9);
}

#[test]
fn get_has_no_side_effect() {
    let mut h = Hookable::new(String::from("a"));
    let (a, wa) = counting_waker();
    h.hook(wa);
    assert_eq!(h.get(), "a");
    assert_eq!(h.get(), "a");
    assert_eq!(h.pending(), 1);
    assert_eq!(hits(&a), 0);
}

#[test]
fn set_wakes_every_waiter_once() {
    let mut h = Hookable::new(false);
    let (a, wa) = counting_waker();
    let (b, wb) = counting_waker();
    h.hook(wa);
    h.hook(wb);
    assert_eq!(h.pending(), 2);
    assert_eq!(hits(&a), 0);
    h.set(true);
    assert_eq!(hits(&a), 1);
    assert_eq!(hits(&b), 1);
    assert_eq!(h.pending(), 0);
    h.set(false);
    assert_eq!(hits(&a), 1);
    assert_eq!(hits(&b), 1);
}

#[test]
fn set_wakes_even_if_the_value_stays() {
    let mut h = Hookable::new(7i32);
    let (a, wa) = counting_waker();
    h.hook(wa);
    h.set(7);
    assert_eq!(hits(&a), 1);
    assert_eq!(*h.get(), 7);
}

#[test]
fn a_waiter_hooked_twice_is_woken_twice() {
    let mut h = Hookable::new(0u8);
    let (a, wa) = counting_waker();
    h.hook(wa.clone());
    h.hook(wa);
    h.set(1);
    assert_eq!(hits(&a), 2);
    assert_eq!(h.pending(), 0);
}

#[test]
fn a_waiter_is_woken_again_only_after_a_new_hook() {
    let mut h = Hookable::new(0u8);
    let (a, wa) = counting_waker();
    h.hook(wa.clone());
    h.set(1);
    h.set(2);
    h.set(3);
    assert_eq!(hits(&a), 1);
    h.hook(wa);
    h.set(4);
    assert_eq!(hits(&a), 2);
}

#[test]
fn replace_hands_out_the_waiters_in_order() {
    let mut h = Hookable::new(0u8);
    let (a, wa) = counting_waker();
    let (b, wb) = counting_waker();
    h.hook(wa);
    h.hook(wb);
    let due = h.replace(5);
    assert_eq!(*h.get(), 5);
    assert_eq!(due.len(), 2);
    assert_eq!(h.pending(), 0);
    assert_eq!(hits(&a), 0);
    due[0].wake_by_ref();
    assert_eq!(hits(&a), 1);
    assert_eq!(hits(&b), 0);
    due[1].wake_by_ref();
    assert_eq!(hits(&b), 1);
}

#[test]
fn many_hooks_then_one_set() {
    for n in 0..20usize {
        let mut h = Hookable::new(0usize);
        let mut counters = Vec::new();
        for _ in 0..n {
            let (c, w) = counting_waker();
            h.hook(w);
            counters.push(c);
        }
        assert_eq!(h.pending(), n);
        h.set(n);
        for c in &counters {
            assert_eq!(hits(c), 1);
        }
        h.set(n + 1);
        for c in &counters {
            assert_eq!(hits(c), 1);
        }
    }
}

#[test]
fn the_default_hookable_has_no_waiter() {
    let mut h: Hookable<u32> = Hookable::default();
    assert_eq!(*h.get(), 0);
    assert_eq!(h.pending(), 0);
    h.set(1);
    assert_eq!(*h.get(), 1);
}
