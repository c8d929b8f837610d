//! Guards against releasing a resource without going through its explicit
//! teardown.

use drop_bomb::DropBomb;
use vstd::prelude::*;

verus! {

/// The drop guard of the `drop_bomb` crate. Dropping one that has not been
/// defused panics with the message it was created with.
#[verifier::external_type_specification]
#[verifier::external_body]
pub struct ExDropBomb(DropBomb);

/// Calls `DropBomb::new`, which makes an armed guard.
#[verifier::external_body]
pub(crate) fn arm_guard(message: &'static str) -> (guard: DropBomb) {
    DropBomb::new(message)
}

/// Calls `DropBomb::defuse`, after which dropping the guard no longer panics.
#[verifier::external_body]
pub(crate) fn defuse_guard(guard: &mut DropBomb) {
    guard.defuse()
}

/// Marker for a value that must not be dropped implicitly. It holds no data
/// and enforces nothing by itself: a type that carries one says that its
/// values are meant to end only in the operation that takes them apart.
#[derive(Default, Debug, Clone, PartialEq, Eq, PartialOrd, Ord)]
pub struct CompileDropBomb;

} // verus!
