//! Deferred-initialization memory cells.
//!
//! A cell is a fixed slot that is declared before its value exists, written
//! exactly once, and read thereafter as if it had always held that value.
//! Two variants share one surface: [`LateInitUnchecked`], a raw slot that
//! carries no presence flag, and [`LateInit`], which tracks presence. Both
//! are governed by preconditions: reading before the one write, or writing
//! a checked cell twice, is ruled out at the call site instead of at run
//! time.

mod checked;
pub mod render;
mod unchecked;

pub use checked::LateInit;
pub use checked::lemma_write_once;
pub use unchecked::LateInitUnchecked;
