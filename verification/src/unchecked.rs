use vstd::prelude::*;

verus! {

/// A raw late-initialization slot with no presence tracking of its own.
///
/// The view is `None` while the storage holds no value yet and `Some(v)`
/// once `v` has been written. Storage that was never written has no value
/// to read, and the cell keeps no flag that could detect the attempt, so
/// every accessor that assumes a value demands `self@ is Some` up front:
/// a verified caller can never read before the write.
pub struct LateInitUnchecked<T> {
    slot: Option<T>,
}

/// Relies on `core::mem::forget`: takes ownership of a value and discards it
/// without running its teardown. Used so that overwriting an already-written
/// slot leaks the previous value rather than tearing it down, as the
/// write-once contract documents.
#[verifier::external_body]
fn leak_value<T>(value: T) {
    core::mem::forget(value);
}

impl<T> View for LateInitUnchecked<T> {
    type V = Option<T>;

    closed spec fn view(&self) -> Option<T> {
        self.slot
    }
}

impl<T> LateInitUnchecked<T> {
    /// An empty slot: its storage holds no value until the one write.
    pub fn new() -> (r: Self)
        ensures
            r@ is None,
    {
        LateInitUnchecked { slot: None }
    }

    /// A slot that holds `value` from the first instant, as if the one
    /// write had already happened.
    pub fn with(value: T) -> (r: Self)
        ensures
            r@ == Some(value),
    {
        LateInitUnchecked { slot: Some(value) }
    }

    /// The initializing write. It always succeeds and unconditionally
    /// overwrites the storage; a value already present is leaked, never
    /// torn down, so repeated writes trade resources for safety.
    pub fn late_init_mut(&mut self, value: T)
        ensures
            final(self)@ == Some(value),
    {
        let prev = self.slot.take();
        self.slot = Some(value);
        if let Some(p) = prev {
            leak_value(p);
        }
    }

    /// A shared view of the written value. The write must already have
    /// happened: unwritten storage holds nothing to read, and the cell has
    /// no flag to report that, so the case is excluded up front.
    pub fn late_get_ref(&self) -> (r: &T)
        requires
            self@ is Some,
        ensures
            *r == self@->0,
    {
        self.slot.as_ref().unwrap()
    }

    /// An exclusive view of the written value, with the same precondition
    /// as `late_get_ref`. Whatever the caller leaves behind the returned
    /// reference is what the slot holds afterwards, so a write through it
    /// is visible to every later read of the same storage.
    pub fn late_get_mut(&mut self) -> (r: &mut T)
        requires
            old(self)@ is Some,
        ensures
            *r == old(self)@->0,
            final(self)@ == Some(*final(r)),
    {
        match &mut self.slot {
            Some(v) => v,
            None => vstd::pervasive::unreached(),
        }
    }
}

impl<T: core::fmt::Debug> LateInitUnchecked<T> {
    /// A debug rendering: the value inside the `LateInitUnchecked(...)`
    /// frame. The write must already have happened — rendering unwritten
    /// storage is as out of contract as reading it — and what the value
    /// renders as belongs to its `Debug` impl, unspecified beyond the frame.
    pub fn debug_string(&self) -> (r: String)
        requires
            self@ is Some,
        ensures
            crate::render::framed_rendering("LateInitUnchecked"@, r@),
    {
        crate::render::render_framed("LateInitUnchecked", self.late_get_ref())
    }
}

} // verus!
