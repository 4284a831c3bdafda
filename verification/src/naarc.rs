//! A reference-counted handle over externally owned backing storage.
//!
//! The protocol mirrors [`crate::darc`]: the count starts where the
//! caller sets it, cloning raises it by one, dropping lowers it by one,
//! and the unique transition from one to zero is the logical teardown of
//! the value. The storage itself is never freed here — it belongs to the
//! caller, who must guarantee that it outlives every handle derived from
//! it; that guarantee is a documented precondition, not something the
//! handle could check. A count observed at zero when a handle is still
//! being dropped is a corrupt accounting state: it is excluded by
//! precondition rather than recovered from.

use vstd::prelude::*;
use crate::cell::NotUnsafeCell;

verus! {

/// The storage a [`Naarc`] counts references to: a reference counter
/// co-located with a borrow-checked cell holding the value. A count of
/// zero means the value has been torn down and no handle is live.
#[derive(Debug)]
pub struct NaarcInner<T> {
    ref_count: usize,
    data: NotUnsafeCell<T>,
}

impl<T> NaarcInner<T> {
    /// The number of live handles; zero once the value is torn down.
    pub closed spec fn spec_count(&self) -> int {
        self.ref_count as int
    }

    /// The cell holding the value.
    pub closed spec fn spec_cell(&self) -> NotUnsafeCell<T> {
        self.data
    }

    /// The value currently held.
    pub open spec fn spec_value(&self) -> T {
        self.spec_cell().spec_value()
    }

    /// Well-formedness of the inner cell.
    pub open spec fn wf(&self) -> bool {
        self.spec_cell().wf()
    }

    /// Creates storage holding `data` in a fresh free cell, with the
    /// counter starting wherever the caller says.
    pub fn new(ref_count: usize, data: T) -> (r: Self)
        ensures
            r.wf(),
            r.spec_count() == ref_count,
            r.spec_value() == data,
            r.spec_cell().is_free(),
    {
        NaarcInner { ref_count, data: NotUnsafeCell::new(data) }
    }

    /// Creates storage around an existing cell, borrows and all, with
    /// the counter starting wherever the caller says.
    pub fn from_cell(ref_count: usize, data: NotUnsafeCell<T>) -> (r: Self)
        ensures
            r.spec_count() == ref_count,
            r.spec_cell() == data,
    {
        NaarcInner { ref_count, data }
    }

    /// Whether the value has been torn down: the count has reached zero
    /// and no handle is live any more.
    pub fn is_dropped(&self) -> (r: bool)
        ensures
            r == (self.spec_count() == 0),
    {
        self.ref_count == 0
    }
}

/// A handle sharing ownership of a [`NaarcInner`].
///
/// The handle is a token: it holds no pointer of its own, and every
/// operation names the storage it counts against. The caller must
/// guarantee that the storage outlives every handle derived from it and
/// is not mixed up with another storage's handles; within that
/// discipline the contracts here make the count exact live-handle
/// accounting, and the one-to-zero transition happens exactly once.
#[derive(Debug)]
pub struct Naarc {
    _token: (),
}

impl Naarc {
    /// Places `value` into the caller's storage slot and hands out the
    /// first handle; the count becomes one.
    pub fn new<T>(inner: &mut NaarcInner<T>, value: T) -> (h: Naarc)
        ensures
            final(inner).wf(),
            final(inner).spec_count() == 1,
            final(inner).spec_value() == value,
            final(inner).spec_cell().is_free(),
    {
        *inner = NaarcInner { ref_count: 1, data: NotUnsafeCell::new(value) };
        Naarc { _token: () }
    }

    /// Makes `inner` the storage of a fresh sole handle: the count is
    /// reset to one, whatever it was.
    pub fn from_inner<T>(inner: &mut NaarcInner<T>) -> (h: Naarc)
        ensures
            final(inner).spec_count() == 1,
            final(inner).spec_cell() == old(inner).spec_cell(),
    {
        inner.ref_count = 1;
        Naarc { _token: () }
    }

    /// Clones the handle: one more live handle, count one higher.
    /// Cloning against a count of zero would mean cloning a handle that
    /// has already been torn down, a corrupt state excluded here.
    pub fn clone_handle<T>(&self, inner: &mut NaarcInner<T>) -> (h: Naarc)
        requires
            old(inner).spec_count() >= 1,
            old(inner).spec_count() < usize::MAX,
        ensures
            final(inner).spec_count() == old(inner).spec_count() + 1,
            final(inner).spec_cell() == old(inner).spec_cell(),
    {
        inner.ref_count = inner.ref_count + 1;
        Naarc { _token: () }
    }

    /// Drops the handle: one fewer live handle, count one lower. The
    /// count reaches zero exactly when this handle was the last one;
    /// that unique transition is the teardown of the value, after which
    /// [`NaarcInner::is_dropped`] reports true. The storage itself is
    /// never freed here. A drop that observes a count of zero would be
    /// a double teardown and is excluded by precondition.
    pub fn drop_handle<T>(self, inner: &mut NaarcInner<T>)
        requires
            old(inner).spec_count() >= 1,
        ensures
            final(inner).spec_count() == old(inner).spec_count() - 1,
            final(inner).spec_cell() == old(inner).spec_cell(),
    {
        let Naarc { _token } = self;
        inner.ref_count = inner.ref_count - 1;
    }

    /// The number of live handles on the given storage.
    pub fn strong_count<T>(&self, inner: &NaarcInner<T>) -> (r: usize)
        ensures
            r as int == inner.spec_count(),
    {
        inner.ref_count
    }

    /// Reads the shared value; a shared view is always available to a
    /// live handle.
    pub fn get<'a, T>(&self, inner: &'a NaarcInner<T>) -> (r: &'a T)
        ensures
            *r == inner.spec_value(),
    {
        inner.data.get_ref()
    }

    /// Mutable access to the value, granted exactly when this handle is
    /// the sole owner — a count of one; otherwise no access, and the
    /// storage is left unchanged.
    pub fn get_mut<'a, T>(&self, inner: &'a mut NaarcInner<T>) -> (r: Option<&'a mut T>)
        ensures
            match r {
                Some(m) => old(inner).spec_count() == 1 && *m == old(inner).spec_value()
                    && final(inner).spec_count() == 1
                    && final(inner).spec_value() == *final(m)
                    && final(inner).spec_cell().spec_borrow()
                        == old(inner).spec_cell().spec_borrow(),
                None => old(inner).spec_count() != 1 && *final(inner) == *old(inner),
            },
    {
        if inner.ref_count == 1 {
            Some(inner.data.get_mut())
        } else {
            None
        }
    }

    /// Mutable access for a caller that has already established sole
    /// ownership; any other count is a fatal misuse, so it is excluded
    /// by precondition instead of being reported back.
    pub fn make_mut<'a, T: Clone>(&self, inner: &'a mut NaarcInner<T>) -> (r: &'a mut T)
        requires
            old(inner).spec_count() == 1,
        ensures
            *r == old(inner).spec_value(),
            final(inner).spec_count() == 1,
            final(inner).spec_value() == *final(r),
            final(inner).spec_cell().spec_borrow() == old(inner).spec_cell().spec_borrow(),
    {
        match self.get_mut(inner) {
            Some(m) => m,
            None => vstd::pervasive::unreached(),
        }
    }

    /// Unwraps the storage and hands the value out, consuming the
    /// handle. Sole ownership — a count of one — and a borrow-free cell
    /// are required for the move; otherwise the storage comes back
    /// unchanged beside the handle.
    pub fn try_unwrap<T>(self, inner: NaarcInner<T>) -> (r: Result<T, (Naarc, NaarcInner<T>)>)
        requires
            inner.wf(),
        ensures
            match r {
                Ok(v) => inner.spec_count() == 1 && inner.spec_cell().is_free() && v
                    == inner.spec_value(),
                Err((_, back)) => (inner.spec_count() != 1 || !inner.spec_cell().is_free()) && back
                    == inner,
            },
    {
        let sole = inner.ref_count == 1;
        if sole {
            let NaarcInner { ref_count: _, data } = inner;
            if data.debug_borrow_state() == 0 {
                Ok(data.into_inner())
            } else {
                Err((self, NaarcInner { ref_count: 1, data }))
            }
        } else {
            Err((self, inner))
        }
    }
}

} // verus!
