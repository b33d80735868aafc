//! What is set up when the application starts.

use vstd::prelude::*;
use crate::service::Platform;
use crate::utils::error::AppError;

verus! {

/// What the start of the application has to arrange outside.
#[derive(Clone, Copy, Debug, PartialEq, Eq, Structural)]
pub enum SetupTask {
    /// Nothing.
    Nothing,
    /// Install the hook that exits the application when the system shuts
    /// down.
    ShutdownHook,
}

/// The setup of the application on `platform`: only Windows needs the
/// shutdown hook.
pub fn setup(platform: Platform) -> (task: Result<SetupTask, AppError>)
    ensures
        task == Ok::<SetupTask, AppError>(
            if platform == Platform::Windows {
                SetupTask::ShutdownHook
            } else {
                SetupTask::Nothing
            },
        ),
{
    match platform {
        Platform::Windows => Ok(SetupTask::ShutdownHook),
        _ => Ok(SetupTask::Nothing),
    }
}

} // verus!
