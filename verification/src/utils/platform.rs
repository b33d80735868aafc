//! What differs by platform outside the service.

use vstd::prelude::*;

verus! {

/// Sets how the application shows in the system's list of running
/// applications. Only macOS has such a policy, and there the windowing layer
/// sets it; here nothing is to do.
pub fn set_application_activation_policy() {
}

} // verus!
