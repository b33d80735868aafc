//! The dialog that asks before a migration.

use vstd::prelude::*;

verus! {

/// Whether to go on with the migration that `_msg` describes. Nobody is
/// asked: the answer is always yes.
pub fn migrate_dialog(_msg: &str) -> (proceed: bool)
    ensures
        proceed,
{
    true
}

} // verus!
