use vstd::prelude::*;

verus! {

/// A late-initialization slot that tracks whether its value is present.
///
/// The view is `None` while the slot is absent and `Some(v)` once the one
/// permitted write has stored `v`. The only transition over a cell's life
/// is absent to present; the write-once contract rules a second write out
/// as a precondition, and the assume-present accessors likewise rule out
/// absence, so neither misuse survives verification.
pub struct LateInit<T> {
    slot: Option<T>,
}

impl<T> View for LateInit<T> {
    type V = Option<T>;

    closed spec fn view(&self) -> Option<T> {
        self.slot
    }
}

impl<T> LateInit<T> {
    /// An absent slot: no value is present until `late_init_mut` writes one.
    pub fn new() -> (r: Self)
        ensures
            r@ is None,
    {
        LateInit { slot: None }
    }

    /// A slot that is present with `value` from the first instant.
    pub fn with(value: T) -> (r: Self)
        ensures
            r@ == Some(value),
    {
        LateInit { slot: Some(value) }
    }

    /// The one initializing write: the slot moves from absent to present
    /// and stays present. A slot already present is excluded up front,
    /// which is the write-once contract stated as a precondition.
    pub fn late_init_mut(&mut self, value: T)
        requires
            old(self)@ is None,
        ensures
            final(self)@ == Some(value),
    {
        self.slot = Some(value);
    }

    /// Probe: the value if present, `None` otherwise. This is the one
    /// accessor that reports absence as an outcome instead of assuming
    /// presence.
    pub fn late_try_get_ref(&self) -> (r: Option<&T>)
        ensures
            r is Some <==> self@ is Some,
            self@ is Some ==> *r->0 == self@->0,
    {
        self.slot.as_ref()
    }

    /// Exclusive probe: the value if present, `None` otherwise. Whatever
    /// the caller leaves behind a returned reference is what the slot
    /// holds afterwards.
    pub fn late_try_get_mut(&mut self) -> (r: Option<&mut T>)
        ensures
            match old(self)@ {
                None => r is None && final(self)@ is None,
                Some(v) => r is Some && *r->0 == v && final(self)@ == Some(*final(r->0)),
            },
    {
        self.slot.as_mut()
    }

    /// The present value. Unlike the probe, this accessor treats absence
    /// as an internal-contract violation, not a recoverable outcome; the
    /// precondition excludes it, so a verified caller can never take that
    /// path.
    pub fn late_get_ref(&self) -> (r: &T)
        requires
            self@ is Some,
        ensures
            *r == self@->0,
    {
        self.slot.as_ref().unwrap()
    }

    /// The present value, exclusively, with the same precondition as
    /// `late_get_ref`. A write through the returned reference is what
    /// every later read of the same storage sees.
    pub fn late_get_mut(&mut self) -> (r: &mut T)
        requires
            old(self)@ is Some,
        ensures
            *r == old(self)@->0,
            final(self)@ == Some(*final(r)),
    {
        match &mut self.slot {
            Some(v) => v,
            None => vstd::pervasive::unreached(),
        }
    }
}

impl<T: core::fmt::Debug> LateInit<T> {
    /// A debug rendering: the value inside the `LateInit(...)` frame once
    /// present, and the explicit placeholder `LateInit("<UNINIT>")` — never
    /// raw storage — while absent. What a present value renders as belongs
    /// to its `Debug` impl and is not specified beyond the frame.
    pub fn debug_string(&self) -> (r: String)
        ensures
            self@ is None ==> r@ == "LateInit(\"<UNINIT>\")"@,
            self@ is Some ==> crate::render::framed_rendering("LateInit"@, r@),
    {
        match self.late_try_get_ref() {
            Some(v) => crate::render::render_framed("LateInit", v),
            None => "LateInit(\"<UNINIT>\")".to_string(),
        }
    }
}

/// Law: the write-once contract in general form. A slot seen present holds
/// the one value that was written and can never again satisfy the absence
/// that `late_init_mut` demands, so a second initializing write is excluded
/// at every verified call site.
pub proof fn lemma_write_once<T>(cell: LateInit<T>, value: T)
    requires
        cell@ == Some(value),
    ensures
        !(cell@ is None),
        cell@->0 == value,
{
}

} // verus!
