//! A value with a list of waiters that are notified whenever the value is set.

use std::task::Waker;
use vstd::prelude::*;

verus! {

/// `std::task::Waker`, carried through as an opaque handle to a suspended task.
#[verifier::external_type_specification]
#[verifier::external_body]
pub struct ExWaker(Waker);

/// Calls `Waker::wake_by_ref`, which schedules the waker's task to be polled
/// again. The effect lies outside this library, so nothing is claimed of it.
#[verifier::external_body]
pub(crate) fn notify(waker: &Waker) {
    waker.wake_by_ref();
}

/// The handle that `Waker::clone` gives for `waker`: another handle to the
/// same task.
pub uninterp spec fn cloned_waker(waker: Waker) -> Waker;

/// Calls `Waker::clone`. The copy is a function of the waker it was made from;
/// no more is claimed of it.
#[verifier::external_body]
pub(crate) fn clone_waker(waker: &Waker) -> (copy: Waker)
    ensures
        copy == cloned_waker(*waker),
{
    waker.clone()
}

/// What one poll of a waiting operation found.
#[derive(Debug, Clone, Copy, PartialEq, Eq)]
pub enum Polled<T> {
    /// The awaited condition holds; the operation is complete with this value.
    Ready(T),
    /// The condition does not hold yet; the caller's waker was registered.
    Pending,
}

/// What a [`Hookable`] stands for: its value and the waiters registered since
/// the value was last set, oldest first.
pub struct HookableModel<T> {
    pub value: T,
    pub waiters: Seq<Waker>,
}

impl<T> HookableModel<T> {
    /// The model after one more waiter has been registered.
    pub open spec fn hook(self, waker: Waker) -> Self {
        HookableModel { value: self.value, waiters: self.waiters.push(waker) }
    }

    /// The model after each waiter of `wakers` has been registered in turn.
    pub open spec fn hook_all(self, wakers: Seq<Waker>) -> Self
        decreases wakers.len(),
    {
        if wakers.len() == 0 {
            self
        } else {
            self.hook_all(wakers.drop_last()).hook(wakers.last())
        }
    }

    /// The model after the value has been set.
    pub open spec fn set(self, value: T) -> Self {
        HookableModel { value, waiters: Seq::empty() }
    }

    /// The waiters that setting the value notifies, in the order of notification.
    pub open spec fn notified_by_set(self) -> Seq<Waker> {
        self.waiters
    }
}

/// A value to which waiters can be attached; every `set` notifies all waiters
/// attached since the previous one.
#[derive(Debug, Clone)]
pub struct Hookable<T> {
    data: T,
    wakers: Vec<Waker>,
}

impl<T> View for Hookable<T> {
    type V = HookableModel<T>;

    closed spec fn view(&self) -> HookableModel<T> {
        HookableModel { value: self.data, waiters: self.wakers@ }
    }
}

impl<T> Hookable<T> {
    /// A hookable holding `data`, with no waiter.
    pub fn new(data: T) -> (h: Self)
        ensures
            h@.value == data,
            h@.waiters == Seq::<Waker>::empty(),
    {
        Hookable { data, wakers: Vec::new() }
    }

    /// Stores `data` and hands out the waiters that are due a notification,
    /// oldest first, leaving none registered.
    pub fn replace(&mut self, data: T) -> (due: Vec<Waker>)
        ensures
            due@ == old(self)@.notified_by_set(),
            final(self)@ == old(self)@.set(data),
    {
        self.data = data;
        let mut due: Vec<Waker> = Vec::new();
        std::mem::swap(&mut self.wakers, &mut due);
        due
    }

    /// Stores `data`, then notifies every waiter registered since the last
    /// `set`, oldest first and each once; none stays registered.
    pub fn set(&mut self, data: T)
        ensures
            final(self)@ == old(self)@.set(data),
    {
        let due = self.replace(data);
        notify_all(&due);
    }

    /// The current value.
    pub fn get(&self) -> (value: &T)
        ensures
            *value == self@.value,
    {
        &self.data
    }

    /// Registers `waker` to be notified by the next `set`, behind the waiters
    /// already registered. The same task may be registered more than once.
    pub fn hook(&mut self, waker: Waker)
        ensures
            final(self)@ == old(self)@.hook(waker),
    {
        self.wakers.push(waker);
    }

    /// How many waiters the next `set` will notify.
    pub fn pending(&self) -> (n: usize)
        ensures
            n == self@.waiters.len(),
    {
        self.wakers.len()
    }
}

impl<T: Default> Default for Hookable<T> {
    /// A hookable holding the default value, with no waiter.
    fn default() -> (h: Self)
        ensures
            h@.waiters == Seq::<Waker>::empty(),
    {
        Hookable::new(T::default())
    }
}

/// Notifies each waiter of `due` once, in order, and reports how many
/// notifications were sent.
pub(crate) fn notify_all(due: &Vec<Waker>) -> (sent: usize)
    ensures
        sent == due@.len(),
{
    let mut i: usize = 0;
    while i < due.len()
        invariant
            i <= due@.len(),
        decreases due@.len() - i,
    {
        notify(&due[i]);
        i += 1;
    }
    i
}

/// Registering waiters and then setting the value notifies the waiters that
/// were already pending followed by the new ones, each exactly as often as it
/// was registered; afterwards none is left, so a further `set` without a new
/// registration notifies nobody.
pub proof fn lemma_set_notifies_each_hook_once<T>(
    start: HookableModel<T>,
    wakers: Seq<Waker>,
    value: T,
    again: T,
)
    ensures
        start.hook_all(wakers).notified_by_set() == start.waiters + wakers,
        start.hook_all(wakers).value == start.value,
        start.hook_all(wakers).set(value).value == value,
        start.hook_all(wakers).set(value).notified_by_set() == Seq::<Waker>::empty(),
        start.hook_all(wakers).set(value).set(again).notified_by_set() == Seq::<Waker>::empty(),
    decreases wakers.len(),
{
    if wakers.len() > 0 {
        lemma_set_notifies_each_hook_once(start, wakers.drop_last(), value, again);
        assert(start.waiters + wakers =~= (start.waiters + wakers.drop_last()).push(wakers.last()));
    } else {
        assert(start.waiters + wakers =~= start.waiters);
    }
}

} // verus!
