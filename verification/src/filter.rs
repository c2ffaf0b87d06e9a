//! A holder that passes a network driver through unchanged.

use vstd::prelude::*;

verus! {

/// Wraps a network device so that traffic through it can be watched. The
/// holder adds nothing of its own: every driver operation is the inner
/// device's.
pub struct NetFilter<T> {
    pub inner: T,
}

} // verus!
