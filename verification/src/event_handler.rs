//! The handlers the application mounts on its event bus.

use vstd::prelude::*;

verus! {

/// Mounts the event handlers. There is none yet: the application is left as
/// it is.
pub fn mount_handlers<M>(_app: &mut M)
    ensures
        *final(_app) == *old(_app),
{
}

} // verus!
