//! A subject that keeps a list of observers and notifies them.

use vstd::prelude::*;

verus! {

/// Something that can be told that an event happened.
pub trait IObserver {
    /// Receives one notification.
    fn update(&self);
}

/// Something that observers can be attached to and detached from, and that
/// notifies those attached.
pub trait ISubject<'a, T: IObserver> {
    /// The attached observers, in the order in which they are notified.
    spec fn observers(&self) -> Seq<&'a T>;

    /// Adds `observer` after those already attached.
    fn attach(&mut self, observer: &'a T)
        ensures
            final(self).observers() == old(self).observers().push(observer),
    ;

    /// Removes at most one attachment and keeps the others in order.
    fn detach(&mut self, observer: &'a T)
        ensures
            final(self).observers() == old(self).observers() || exists|i: int|
                0 <= i < old(self).observers().len() && final(self).observers() == old(
                    self,
                ).observers().remove(i),
    ;

    /// Notifies every attached observer once, in order.
    fn notify_observers(&self);
}

/// A subject that holds its observers in a list. An observer may be attached
/// more than once and is then notified as often.
pub struct Subject<'a, T: IObserver> {
    observers: Vec<&'a T>,
}

/// Whether `==` on `T` can give `answer` when asked if `attached` equals
/// `observer`. Where `T::obeys_eq_spec()` holds, the only answer it can give
/// is `attached.eq_spec(observer)`.
pub open spec fn compares_as<T: PartialEq>(attached: &T, observer: &T, answer: bool) -> bool {
    call_ensures(T::eq, (attached, observer), answer)
}

/// Whether place `i` of `observers` compares equal to `observer`, and no
/// place before it does.
pub open spec fn is_first_match<T: PartialEq>(observers: Seq<&T>, observer: &T, i: int) -> bool {
    &&& 0 <= i < observers.len()
    &&& compares_as(observers[i], observer, true)
    &&& forall|j: int| 0 <= j < i ==> compares_as(#[trigger] observers[j], observer, false)
}

/// Whether no place of `observers` compares equal to `observer`.
pub open spec fn has_no_match<T: PartialEq>(observers: Seq<&T>, observer: &T) -> bool {
    forall|j: int|
        0 <= j < observers.len() ==> compares_as(#[trigger] observers[j], observer, false)
}

impl<'a, T: IObserver + PartialEq> Subject<'a, T> {
    /// Creates a subject with no observers.
    pub fn new() -> (subject: Subject<'a, T>)
        ensures
            subject.observers() == Seq::<&'a T>::empty(),
    {
        Subject { observers: Vec::new() }
    }
}

impl<'a, T: IObserver + PartialEq> ISubject<'a, T> for Subject<'a, T> {
    closed spec fn observers(&self) -> Seq<&'a T> {
        self.observers@
    }

    fn attach(&mut self, observer: &'a T) {
        self.observers.push(observer);
    }

    /// Removes the first attachment that compares equal to `observer`, if
    /// there is one, and nothing else.
    fn detach(&mut self, observer: &'a T)
        ensures
            ({
                ||| has_no_match(old(self).observers(), observer) && final(self).observers()
                    == old(self).observers()
                ||| exists|i: int| #[trigger]
                    is_first_match(old(self).observers(), observer, i) && final(self).observers()
                        == old(self).observers().remove(i)
            }),
    {
        let mut i: usize = 0;
        while i < self.observers.len()
            invariant
                i <= self.observers.len(),
                self.observers == old(self).observers,
                forall|j: int|
                    0 <= j < i ==> compares_as(#[trigger] self.observers@[j], observer, false),
            decreases self.observers.len() - i,
        {
            if *self.observers[i] == *observer {
                proof {
                    assert(is_first_match(old(self).observers(), observer, i as int));
                }
                self.observers.remove(i);
                return;
            }
            i += 1;
        }
    }

    fn notify_observers(&self) {
        let mut i: usize = 0;
        while i < self.observers.len()
            invariant
                i <= self.observers.len(),
            decreases self.observers.len() - i,
        {
            self.observers[i].update();
            i += 1;
        }
    }
}

/// Attaches two observers, notifies both, detaches the second and notifies
/// again.
pub fn run_main<T: IObserver + PartialEq>(observer_a: &T, observer_b: &T) {
    let mut subject = Subject::new();
    subject.attach(observer_a);
    subject.attach(observer_b);
    subject.notify_observers();

    subject.detach(observer_b);
    subject.notify_observers();
}

} // verus!
