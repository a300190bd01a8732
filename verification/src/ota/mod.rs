//! Over-the-air update: planned for when a backend server exists. Until
//! then no update is ever found, and performing one is refused.

use vstd::prelude::*;

verus! {

/// Why an update could not be done.
#[derive(Debug, Clone, Copy, PartialEq, Eq, Structural)]
pub enum OtaError {
    /// Updating is not available in this firmware.
    NotImplemented,
}

/// Asks `server_url` for newer firmware; the URL of the image, if any.
pub fn check_update(server_url: &str) -> (res: Result<Option<String>, OtaError>)
    ensures
        res matches Ok(found) && found is None,
{
    Ok(None)
}

/// Downloads and installs the image at `firmware_url`.
pub fn perform_update(firmware_url: &str) -> (res: Result<(), OtaError>)
    ensures
        res == Err::<(), OtaError>(OtaError::NotImplemented),
{
    Err(OtaError::NotImplemented)
}

} // verus!
