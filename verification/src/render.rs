use vstd::prelude::*;

verus! {

/// Holds when `text` is `name` followed by some rendering in parentheses:
/// the frame that a cell's human-readable form always carries.
pub open spec fn framed_rendering(name: Seq<char>, text: Seq<char>) -> bool {
    exists|inner: Seq<char>| text == name + "("@ + inner + ")"@
}

/// Relies on the `format` macro with the value's `Debug` impl: renders the
/// value inside a `name(...)` frame the way the standard debug formatter
/// would. What the value itself renders as belongs to its `Debug` impl and
/// is not specified beyond the frame.
#[verifier::external_body]
pub(crate) fn render_framed<T: core::fmt::Debug>(name: &str, value: &T) -> (r: String)
    ensures
        framed_rendering(name@, r@),
{
    format!("{}({:?})", name, value)
}

} // verus!
