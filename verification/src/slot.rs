//! A holder whose value can be taken out exactly once.
//!
//! Objects shared with Python (an IPC invocation, its resolver, a built
//! application, a context) keep their value in such a holder: consuming
//! operations take it out, and every later operation reports that the value
//! was already consumed.

use vstd::prelude::*;

verus! {

/// The value of a [`Slot`] was already taken out.
#[derive(Debug, Clone, Copy, PartialEq, Eq, Structural)]
pub struct ConsumedError;

impl ConsumedError {
    /// The message shown to Python for this error.
    pub fn message(&self) -> (r: String)
        ensures
            r@ == "the value has already been consumed"@,
    {
        "the value has already been consumed".to_owned()
    }
}

/// What taking from a holder whose contents are `s` returns.
pub open spec fn take_result<T>(s: Option<T>) -> Result<T, ConsumedError> {
    match s {
        Some(v) => Ok(v),
        None => Err(ConsumedError),
    }
}

/// An operation on a holder: taking its value out, or borrowing it.
#[derive(Debug, Clone, Copy, PartialEq, Eq, Structural)]
pub enum Access {
    Take,
    Borrow,
}

/// Whether a holder still holds its value after `access`, given whether it
/// held it before: a take empties it, a borrow leaves it as it was.
pub open spec fn after_access(available: bool, access: Access) -> bool {
    match access {
        Access::Take => false,
        Access::Borrow => available,
    }
}

/// Whether a holder still holds its value after the accesses in order.
pub open spec fn after_accesses(available: bool, accesses: Seq<Access>) -> bool
    decreases accesses.len(),
{
    if accesses.len() == 0 {
        available
    } else {
        after_accesses(after_access(available, accesses[0]), accesses.drop_first())
    }
}

/// How many of the accesses, made in order, are takes that succeed; an
/// access succeeds exactly when the holder still holds its value.
pub open spec fn successful_takes(available: bool, accesses: Seq<Access>) -> nat
    decreases accesses.len(),
{
    if accesses.len() == 0 {
        0
    } else {
        (if available && accesses[0] == Access::Take {
            1nat
        } else {
            0nat
        }) + successful_takes(after_access(available, accesses[0]), accesses.drop_first())
    }
}

/// Law: whatever accesses are made, in any order, at most one take
/// succeeds; exactly one does when the holder held its value and some access
/// is a take.
pub proof fn lemma_taken_at_most_once(available: bool, accesses: Seq<Access>)
    ensures
        successful_takes(available, accesses) <= 1,
        successful_takes(available, accesses) == 1 <==> (available && accesses.contains(
            Access::Take,
        )),
    decreases accesses.len(),
{
    if accesses.len() > 0 {
        let rest = accesses.drop_first();
        lemma_taken_at_most_once(after_access(available, accesses[0]), rest);
        lemma_nothing_after_consumed(rest);
        assert(accesses =~= seq![accesses[0]] + rest);
        if accesses[0] == Access::Take {
            assert(accesses.contains(Access::Take)) by {
                assert(accesses[0] == Access::Take);
            }
        } else {
            assert(accesses.contains(Access::Take) <==> rest.contains(Access::Take)) by {
                if accesses.contains(Access::Take) {
                    let i = choose|i: int| 0 <= i < accesses.len() && accesses[i] == Access::Take;
                    assert(i > 0);
                    assert(rest[i - 1] == Access::Take);
                }
                if rest.contains(Access::Take) {
                    let j = choose|j: int| 0 <= j < rest.len() && rest[j] == Access::Take;
                    assert(accesses[j + 1] == Access::Take);
                }
            }
        }
    }
}

/// Law: once a holder's value was taken out, it never holds one again, and
/// no later take succeeds.
pub proof fn lemma_nothing_after_consumed(accesses: Seq<Access>)
    ensures
        !after_accesses(false, accesses),
        successful_takes(false, accesses) == 0,
    decreases accesses.len(),
{
    if accesses.len() > 0 {
        lemma_nothing_after_consumed(accesses.drop_first());
    }
}

/// Law: borrowing never empties a holder.
pub proof fn lemma_borrows_keep_value(available: bool, n: nat)
    ensures
        after_accesses(available, Seq::new(n, |i: int| Access::Borrow)) == available,
    decreases n,
{
    if n > 0 {
        let s = Seq::new(n, |i: int| Access::Borrow);
        assert(s.drop_first() =~= Seq::new((n - 1) as nat, |i: int| Access::Borrow));
        lemma_borrows_keep_value(available, (n - 1) as nat);
    }
}

/// A holder that gives its value out once.
pub struct Slot<T> {
    inner: Option<T>,
}

impl<T> View for Slot<T> {
    type V = Option<T>;

    closed spec fn view(&self) -> Option<T> {
        self.inner
    }
}

impl<T> Slot<T> {
    /// A holder that contains `value`.
    pub fn new(value: T) -> (s: Self)
        ensures
            s@ == Some(value),
    {
        Slot { inner: Some(value) }
    }

    /// Whether the value was already taken out.
    pub fn is_consumed(&self) -> (r: bool)
        ensures
            r == (self@ is None),
    {
        self.inner.is_none()
    }

    /// Takes the value out; the holder is empty afterwards.
    pub fn take(&mut self) -> (r: Result<T, ConsumedError>)
        ensures
            r == take_result(old(self)@),
            final(self)@ is None,
            (final(self)@ is Some) == after_access(old(self)@ is Some, Access::Take),
    {
        match self.inner.take() {
            Some(v) => Ok(v),
            None => Err(ConsumedError),
        }
    }

    /// Borrows the value, if it was not taken out.
    pub fn get(&self) -> (r: Result<&T, ConsumedError>)
        ensures
            r is Ok <==> self@ is Some,
            r matches Ok(v) ==> Some(*v) == self@,
    {
        match &self.inner {
            Some(v) => Ok(v),
            None => Err(ConsumedError),
        }
    }

    /// Borrows the value mutably, if it was not taken out.
    pub fn get_mut(&mut self) -> (r: Result<&mut T, ConsumedError>)
        ensures
            (match old(self)@ {
                None => r is Err && final(self)@ is None,
                Some(v) => r is Ok && *r->Ok_0 == v && final(self)@ == Some(*final(r->Ok_0)),
            }),
            (final(self)@ is Some) == after_access(old(self)@ is Some, Access::Borrow),
    {
        match self.inner.as_mut() {
            Some(v) => Ok(v),
            None => Err(ConsumedError),
        }
    }
}

} // verus!
