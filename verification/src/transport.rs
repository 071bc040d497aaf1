//! The IPC listener: a Unix domain socket (Linux, macOS) or a named pipe
//! (Windows). Not available yet: binding fails.
use vstd::prelude::*;

verus! {

/// Why the IPC transport failed.
#[derive(Debug)]
pub enum IpcError {
    /// The transport is not available yet.
    NotImplemented,
}

/// A listener for IPC connections.
pub struct IpcListener;

impl IpcListener {
    /// Binds a listener at `path`: for now, always `NotImplemented`.
    pub fn bind(_path: &str) -> (r: Result<Self, IpcError>)
        ensures
            r matches Err(IpcError::NotImplemented),
    {
        Err(IpcError::NotImplemented)
    }
}

} // verus!
