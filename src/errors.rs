use vstd::prelude::*;

verus! {

/// Why the operating system refused to stop a process.
#[derive(Debug, Clone, Copy, PartialEq, Eq, Structural)]
pub enum PlatformFailure {
    /// The termination signal could not be delivered; holds the OS error number.
    SignalFailed(i32),
    /// No handle with terminate rights could be opened for the process.
    OpenHandleFailed,
    /// The process handle was opened but termination was refused.
    TerminateFailed,
    /// Termination went through but the process handle could not be closed.
    CloseHandleFailed,
}

/// A failure of the shutdown sequence; any of them ends the process.
#[derive(Debug, Clone, Copy, PartialEq, Eq, Structural)]
pub enum ShutdownError {
    PlatformError(PlatformFailure),
    /// Resource reclamation did not finish before its deadline.
    Timeout,
}

/// Misuse of the device catalog.
#[derive(Debug, Clone, Copy, PartialEq, Eq, Structural)]
pub enum CatalogError {
    NotInitialized,
    NotFound,
    AlreadyInitialized,
}

/// The browser launch configuration could not be built.
#[derive(Debug)]
pub struct ConfigBuildError {
    pub message: String,
}

impl ShutdownError {
    pub open spec fn spec_message(&self) -> Seq<char> {
        match self {
            ShutdownError::PlatformError(PlatformFailure::SignalFailed(_)) => "Platform error: failed to send SIGTERM"@,
            ShutdownError::PlatformError(PlatformFailure::OpenHandleFailed) => "Platform error: failed to get process handle"@,
            ShutdownError::PlatformError(PlatformFailure::TerminateFailed) => "Platform error: failed to terminate process"@,
            ShutdownError::PlatformError(PlatformFailure::CloseHandleFailed) => "Platform error: failed to close handle"@,
            ShutdownError::Timeout => "Cleanup timeout exceeded"@,
        }
    }

    /// A human readable description.
    pub fn message(&self) -> (r: String)
        ensures
            r@ == self.spec_message(),
    {
        match self {
            ShutdownError::PlatformError(PlatformFailure::SignalFailed(_)) => {
                "Platform error: failed to send SIGTERM".to_owned()
            },
            ShutdownError::PlatformError(PlatformFailure::OpenHandleFailed) => {
                "Platform error: failed to get process handle".to_owned()
            },
            ShutdownError::PlatformError(PlatformFailure::TerminateFailed) => {
                "Platform error: failed to terminate process".to_owned()
            },
            ShutdownError::PlatformError(PlatformFailure::CloseHandleFailed) => {
                "Platform error: failed to close handle".to_owned()
            },
            ShutdownError::Timeout => "Cleanup timeout exceeded".to_owned(),
        }
    }
}

impl CatalogError {
    pub open spec fn spec_message(&self) -> Seq<char> {
        match self {
            CatalogError::NotInitialized => "Device manager not initialized"@,
            CatalogError::NotFound => "Device not found"@,
            CatalogError::AlreadyInitialized => "Device manager already initialized"@,
        }
    }

    /// A human readable description.
    pub fn message(&self) -> (r: String)
        ensures
            r@ == self.spec_message(),
    {
        match self {
            CatalogError::NotInitialized => "Device manager not initialized".to_owned(),
            CatalogError::NotFound => "Device not found".to_owned(),
            CatalogError::AlreadyInitialized => "Device manager already initialized".to_owned(),
        }
    }
}

} // verus!
