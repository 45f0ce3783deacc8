//! Per-render state threaded through nested formatting.

use vstd::prelude::*;

verus! {

/// Carries the numeric value most recently selected by an enclosing plural
/// format, so that nested parts can reference "the matched number" without
/// re-reading the arguments. Cheap to copy; nested formatting creates a
/// derived copy with the field overridden, never mutating a shared instance.
#[derive(Clone, Copy, Debug)]
pub struct Context {
    /// The offset-adjusted number chosen by the nearest enclosing plural
    /// format, if any.
    pub placeholder_value: Option<i64>,
}

impl Default for Context {
    /// A fresh context with no placeholder value set.
    fn default() -> (c: Self)
        ensures
            c.placeholder_value is None,
    {
        Context { placeholder_value: None }
    }
}

} // verus!
