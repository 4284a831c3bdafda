//! A cell whose borrows are checked at run time instead of at compile
//! time.
//!
//! The cell is always in exactly one of three states: free, shared with
//! a positive count of live read borrows, or exclusively borrowed for
//! writing. Acquiring a borrow yields a guard token; the only way back
//! toward the free state is to hand that token in again, exactly once.
//! A losing attempt fails immediately with a borrow conflict — nothing
//! here spins, blocks or retries.
//!
//! Each transition takes the cell by mutable reference, so it is one
//! indivisible update of the counter: the contracts state the exact
//! compare-and-update relation a lock-free counter must satisfy, and
//! every interleaving of such updates stays within the three states.

use vstd::prelude::*;
use crate::BrinyError;

verus! {

/// A borrow-counted cell holding one value.
///
/// The borrow counter encodes the state: `0` is free, a positive count
/// is that many live shared borrows, and `-1` is the one exclusive
/// borrow. The counter never goes below `-1`.
#[derive(Debug)]
pub struct NotUnsafeCell<T> {
    value: T,
    borrow: isize,
}

/// A token witnessing one live shared borrow of a cell.
///
/// It cannot be copied or forged; releasing it is the only way to lower
/// the cell's shared count.
#[derive(Debug)]
pub struct NotUnsafeRef {
    _token: (),
}

/// A token witnessing the one live exclusive borrow of a cell.
///
/// It cannot be copied or forged; releasing it is the only way to bring
/// the cell back to the free state, and holding it is the only way to
/// write through the cell.
#[derive(Debug)]
pub struct NotUnsafeRefMut {
    _token: (),
}

impl<T> NotUnsafeCell<T> {
    /// The borrow counter: `0` free, `n > 0` shared by `n`, `-1`
    /// exclusive.
    pub closed spec fn spec_borrow(&self) -> int {
        self.borrow as int
    }

    /// The value currently held.
    pub closed spec fn spec_value(&self) -> T {
        self.value
    }

    /// Well-formedness: the counter never falls below the exclusive
    /// marker.
    pub open spec fn wf(&self) -> bool {
        self.spec_borrow() >= -1
    }

    /// The cell has no live borrow.
    pub open spec fn is_free(&self) -> bool {
        self.spec_borrow() == 0
    }

    /// The cell has at least one live shared borrow.
    pub open spec fn is_shared(&self) -> bool {
        self.spec_borrow() > 0
    }

    /// How many shared borrows are live.
    pub open spec fn shared_count(&self) -> int {
        self.spec_borrow()
    }

    /// The cell is exclusively borrowed.
    pub open spec fn is_exclusive(&self) -> bool {
        self.spec_borrow() == -1
    }

    /// Creates a cell holding `value`, with no live borrow.
    pub fn new(value: T) -> (c: Self)
        ensures
            c.wf(),
            c.is_free(),
            c.spec_value() == value,
    {
        NotUnsafeCell { value, borrow: 0 }
    }

    /// Tries to take one more shared borrow.
    ///
    /// Succeeds from the free state and from any shared state, raising
    /// the count by one; fails with a borrow conflict, leaving the cell
    /// unchanged, exactly when the cell is exclusively borrowed.
    pub fn try_borrow(&mut self) -> (r: Result<NotUnsafeRef, BrinyError>)
        requires
            old(self).wf(),
            old(self).spec_borrow() < isize::MAX,
        ensures
            final(self).wf(),
            final(self).spec_value() == old(self).spec_value(),
            match r {
                Ok(_) => !old(self).is_exclusive() && final(self).spec_borrow() == old(
                    self,
                ).spec_borrow() + 1,
                Err(e) => old(self).is_exclusive() && final(self).spec_borrow() == old(
                    self,
                ).spec_borrow() && e.spec_code() == crate::BORROW_CONFLICT_CODE,
            },
    {
        if self.borrow >= 0 {
            self.borrow = self.borrow + 1;
            Ok(NotUnsafeRef { _token: () })
        } else {
            Err(BrinyError::borrow_conflict())
        }
    }

    /// Tries to take the exclusive borrow.
    ///
    /// Succeeds only from the free state; fails with a borrow conflict,
    /// leaving the cell unchanged, whenever any borrow is live.
    pub fn try_borrow_mut(&mut self) -> (r: Result<NotUnsafeRefMut, BrinyError>)
        requires
            old(self).wf(),
        ensures
            final(self).wf(),
            final(self).spec_value() == old(self).spec_value(),
            match r {
                Ok(_) => old(self).is_free() && final(self).is_exclusive(),
                Err(e) => !old(self).is_free() && final(self).spec_borrow() == old(
                    self,
                ).spec_borrow() && e.spec_code() == crate::BORROW_CONFLICT_CODE,
            },
    {
        if self.borrow == 0 {
            self.borrow = -1;
            Ok(NotUnsafeRefMut { _token: () })
        } else {
            Err(BrinyError::borrow_conflict())
        }
    }

    /// Takes one more shared borrow, for callers that have already ruled
    /// a conflict out; the exclusive state is excluded by precondition.
    pub fn borrow(&mut self) -> (r: NotUnsafeRef)
        requires
            old(self).wf(),
            !old(self).is_exclusive(),
            old(self).spec_borrow() < isize::MAX,
        ensures
            final(self).wf(),
            final(self).spec_value() == old(self).spec_value(),
            final(self).spec_borrow() == old(self).spec_borrow() + 1,
    {
        let r = self.try_borrow();
        match r {
            Ok(g) => g,
            Err(_) => vstd::pervasive::unreached(),
        }
    }

    /// Takes the exclusive borrow, for callers that have already ruled a
    /// conflict out; every non-free state is excluded by precondition.
    pub fn borrow_mut(&mut self) -> (r: NotUnsafeRefMut)
        requires
            old(self).wf(),
            old(self).is_free(),
        ensures
            final(self).wf(),
            final(self).spec_value() == old(self).spec_value(),
            final(self).is_exclusive(),
    {
        let r = self.try_borrow_mut();
        match r {
            Ok(g) => g,
            Err(_) => vstd::pervasive::unreached(),
        }
    }

    /// Releases one shared borrow, consuming its token; the count drops
    /// by one, reaching the free state when this was the last one.
    pub fn release(&mut self, guard: NotUnsafeRef)
        requires
            old(self).wf(),
            old(self).is_shared(),
        ensures
            final(self).wf(),
            final(self).spec_value() == old(self).spec_value(),
            final(self).spec_borrow() == old(self).spec_borrow() - 1,
    {
        let NotUnsafeRef { _token } = guard;
        self.borrow = self.borrow - 1;
    }

    /// Releases the exclusive borrow, consuming its token; the cell
    /// returns to the free state.
    pub fn release_mut(&mut self, guard: NotUnsafeRefMut)
        requires
            old(self).wf(),
            old(self).is_exclusive(),
        ensures
            final(self).wf(),
            final(self).is_free(),
            final(self).spec_value() == old(self).spec_value(),
    {
        let NotUnsafeRefMut { _token } = guard;
        self.borrow = 0;
    }

    /// Reads the value through a shared reference, without touching the
    /// borrow accounting.
    pub fn get_ref(&self) -> (r: &T)
        ensures
            *r == self.spec_value(),
    {
        &self.value
    }

    /// Reads the value through a shared reference; a shared view cannot
    /// violate the borrow discipline.
    pub fn get(&self) -> (r: &T)
        ensures
            *r == self.spec_value(),
    {
        &self.value
    }

    /// Writes the value through the exclusive borrow; holding the
    /// exclusive token is the only way to reach this.
    pub fn write(&mut self, _guard: &NotUnsafeRefMut, value: T)
        requires
            old(self).wf(),
            old(self).is_exclusive(),
        ensures
            final(self).wf(),
            final(self).is_exclusive(),
            final(self).spec_value() == value,
    {
        self.value = value;
    }

    /// Mutable access to the value for a caller that holds the whole
    /// cell exclusively; the borrow accounting is not consulted and not
    /// changed, since the `&mut` receiver already rules out any alias.
    pub fn get_mut(&mut self) -> (r: &mut T)
        ensures
            *r == old(self).spec_value(),
            final(self).spec_value() == *final(r),
            final(self).spec_borrow() == old(self).spec_borrow(),
    {
        &mut self.value
    }

    /// Consumes the cell and hands the value out. Destroying a cell
    /// while a borrow is still live is a fatal accounting error, so the
    /// free state is a precondition.
    pub fn into_inner(self) -> (r: T)
        requires
            self.wf(),
            self.is_free(),
        ensures
            r == self.spec_value(),
    {
        let NotUnsafeCell { value, borrow: _ } = self;
        value
    }

    /// The raw borrow counter, for inspection.
    pub fn debug_borrow_state(&self) -> (r: isize)
        ensures
            r as int == self.spec_borrow(),
    {
        self.borrow
    }
}

/// Borrow exclusivity: a well-formed cell is in exactly one of the
/// three states — free, shared with a positive count, or exclusively
/// borrowed — at every instant; no two of them ever hold together.
pub proof fn lemma_borrow_state_trichotomy<T>(cell: &NotUnsafeCell<T>)
    requires
        cell.wf(),
    ensures
        cell.is_free() || cell.is_shared() || cell.is_exclusive(),
        !(cell.is_free() && cell.is_shared()),
        !(cell.is_free() && cell.is_exclusive()),
        !(cell.is_shared() && cell.is_exclusive()),
        cell.is_shared() ==> cell.shared_count() >= 1,
{
}

} // verus!
