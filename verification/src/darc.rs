//! A reference-counted handle over caller-allocated backing storage.
//!
//! The backing storage — a counter next to a borrow-checked cell — is a
//! plain value the caller places wherever it wants; nothing here touches
//! a heap allocator. A handle is a token of shared ownership: creating
//! the storage starts the count at one, cloning a handle raises it by
//! one, dropping a handle lowers it by one, and the count is live-handle
//! accounting throughout — it equals clones performed minus drops
//! performed, plus the original one. Mutation and unwrapping are allowed
//! only at count one, when sole ownership is already established.
//!
//! Every operation takes the storage explicitly, so each contract states
//! exactly how the count moves; a count observed below one is an
//! accounting corruption and is excluded by precondition rather than
//! recovered from.

use vstd::prelude::*;
use crate::cell::NotUnsafeCell;

verus! {

/// The storage a [`Darc`] counts references to: a reference counter
/// co-located with a borrow-checked cell holding the value.
#[derive(Debug)]
pub struct DarcInner<T> {
    ref_count: usize,
    data: NotUnsafeCell<T>,
}

impl<T> DarcInner<T> {
    /// The number of live handles.
    pub closed spec fn spec_count(&self) -> int {
        self.ref_count as int
    }

    /// The cell holding the value.
    pub closed spec fn spec_cell(&self) -> NotUnsafeCell<T> {
        self.data
    }

    /// The value currently held.
    pub open spec fn spec_value(&self) -> T {
        self.spec_cell().spec_value()
    }

    /// Well-formedness of the inner cell.
    pub open spec fn wf(&self) -> bool {
        self.spec_cell().wf()
    }

    /// Creates storage holding `data` in a fresh free cell, with the
    /// count already at one for the first handle.
    pub fn new(data: T) -> (r: Self)
        ensures
            r.wf(),
            r.spec_count() == 1,
            r.spec_value() == data,
            r.spec_cell().is_free(),
    {
        DarcInner { ref_count: 1, data: NotUnsafeCell::new(data) }
    }

    /// Creates storage around an existing cell, borrows and all, with
    /// the count at one for the first handle.
    pub fn from_cell(data: NotUnsafeCell<T>) -> (r: Self)
        ensures
            r.spec_count() == 1,
            r.spec_cell() == data,
    {
        DarcInner { ref_count: 1, data }
    }
}

/// A handle sharing ownership of a [`DarcInner`].
///
/// The handle is a token: it holds no pointer of its own, and every
/// operation names the storage it counts against. The caller must
/// guarantee that the storage outlives every handle derived from it and
/// is not mixed up with another storage's handles; within that
/// discipline the contracts here make the count exact live-handle
/// accounting.
#[derive(Debug)]
pub struct Darc {
    _token: (),
}

impl Darc {
    /// Makes `inner` the storage of a fresh sole handle: the count is
    /// reset to one, whatever it was.
    pub fn from_inner<T>(inner: &mut DarcInner<T>) -> (h: Darc)
        ensures
            final(inner).spec_count() == 1,
            final(inner).spec_cell() == old(inner).spec_cell(),
    {
        inner.ref_count = 1;
        Darc { _token: () }
    }

    /// Clones the handle: one more live handle, count one higher.
    /// Nothing else about the storage changes.
    pub fn clone_handle<T>(&self, inner: &mut DarcInner<T>) -> (h: Darc)
        requires
            old(inner).spec_count() >= 1,
            old(inner).spec_count() < usize::MAX,
        ensures
            final(inner).spec_count() == old(inner).spec_count() + 1,
            final(inner).spec_cell() == old(inner).spec_cell(),
    {
        inner.ref_count = inner.ref_count + 1;
        Darc { _token: () }
    }

    /// Drops the handle: one fewer live handle, count one lower. The
    /// count reaches zero exactly when this handle was the last one;
    /// the storage itself stays with its owner, so nothing is freed.
    /// Dropping below zero would be a corrupt accounting state and is
    /// excluded by precondition.
    pub fn drop_handle<T>(self, inner: &mut DarcInner<T>)
        requires
            old(inner).spec_count() >= 1,
        ensures
            final(inner).spec_count() == old(inner).spec_count() - 1,
            final(inner).spec_cell() == old(inner).spec_cell(),
    {
        let Darc { _token } = self;
        inner.ref_count = inner.ref_count - 1;
    }

    /// The number of live handles on the given storage.
    pub fn strong_count<T>(&self, inner: &DarcInner<T>) -> (r: usize)
        ensures
            r as int == inner.spec_count(),
    {
        inner.ref_count
    }

    /// Reads the shared value; a shared view is always available to a
    /// live handle.
    pub fn get<'a, T>(&self, inner: &'a DarcInner<T>) -> (r: &'a T)
        ensures
            *r == inner.spec_value(),
    {
        inner.data.get_ref()
    }

    /// Mutable access to the value, granted exactly when this handle is
    /// the sole owner — a count of one; otherwise no access, and the
    /// storage is left unchanged. The borrow accounting of the cell is
    /// neither consulted nor changed: the exclusive reference to the
    /// storage already rules out any alias.
    pub fn get_mut<'a, T>(&self, inner: &'a mut DarcInner<T>) -> (r: Option<&'a mut T>)
        ensures
            match r {
                Some(m) => old(inner).spec_count() == 1 && *m == old(inner).spec_value()
                    && final(inner).spec_count() == 1
                    && final(inner).spec_value() == *final(m)
                    && final(inner).spec_cell().spec_borrow()
                        == old(inner).spec_cell().spec_borrow(),
                None => old(inner).spec_count() != 1 && *final(inner) == *old(inner),
            },
    {
        if inner.ref_count == 1 {
            Some(inner.data.get_mut())
        } else {
            None
        }
    }

    /// Unwraps the storage and hands the value out, consuming the
    /// handle. Sole ownership — a count of one — and a borrow-free cell
    /// are required, so the move needs no further synchronisation;
    /// otherwise the storage comes back unchanged beside the handle.
    pub fn try_unwrap<T>(self, inner: DarcInner<T>) -> (r: Result<T, (Darc, DarcInner<T>)>)
        requires
            inner.wf(),
        ensures
            match r {
                Ok(v) => inner.spec_count() == 1 && inner.spec_cell().is_free() && v
                    == inner.spec_value(),
                Err((_, back)) => (inner.spec_count() != 1 || !inner.spec_cell().is_free()) && back
                    == inner,
            },
    {
        let sole = inner.ref_count == 1;
        if sole {
            let DarcInner { ref_count: _, data } = inner;
            if data.debug_borrow_state() == 0 {
                Ok(data.into_inner())
            } else {
                Err((self, DarcInner { ref_count: 1, data }))
            }
        } else {
            Err((self, inner))
        }
    }
}

} // verus!
