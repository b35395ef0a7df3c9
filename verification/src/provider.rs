//! The base provider contract.

use vstd::prelude::*;

verus! {

/// Base trait for all provider implementations, regardless of the resource
/// they back.
///
/// Implementors must be both `Send` and `Sync`, so a shared handle to one
/// provider instance can serve requests running on several threads.
pub trait Provider: Send + Sync {

}

} // verus!
