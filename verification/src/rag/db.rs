//! The schema of the store and its migrations.
//!
//! The store records the version of its schema, which only grows. The
//! first migration makes the tables, the second the vector index.

use vstd::prelude::*;

verus! {

/// The version of the schema that this engine works on.
pub const SCHEMA_VERSION: i64 = 2;

/// The migrations that a store of a given schema version still needs: every
/// version above its own up to the current one, in ascending order.
pub open spec fn spec_pending_migrations(current_version: int) -> Seq<i64> {
    if current_version < 1 {
        seq![1i64, 2i64]
    } else if current_version < 2 {
        seq![2i64]
    } else {
        Seq::empty()
    }
}

/// The migrations that a store of a given schema version still needs, in
/// the order in which to run them. A store that is up to date needs none.
pub fn pending_migrations(current_version: i64) -> (res: Vec<i64>)
    ensures
        res@ == spec_pending_migrations(current_version as int),
        forall|i: int| 0 <= i < res@.len() ==> current_version < #[trigger] res@[i] <= SCHEMA_VERSION,
        forall|i: int, j: int| 0 <= i < j < res@.len() ==> res@[i] < res@[j],
        current_version >= SCHEMA_VERSION <==> res@.len() == 0,
{
    let mut due: Vec<i64> = Vec::new();
    if current_version < 1 {
        due.push(1);
    }
    if current_version < 2 {
        due.push(2);
    }
    due
}

} // verus!
