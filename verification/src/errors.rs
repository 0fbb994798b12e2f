use vstd::prelude::*;

verus! {

/// The distinct failure stages of the supervisor, kept apart so an
/// operator can tell a missing storage root from a denied directory
/// creation, a backend that would not launch, and a backend that could
/// not be signalled to stop.
#[derive(Clone, Copy, PartialEq, Eq, Structural, Debug)]
pub enum SupervisorError {
    /// The platform could not supply a per-user application directory.
    PathResolution,
    /// The storage directory could not be created (e.g. permission denied).
    DirectoryCreate,
    /// The backend executable could not be resolved, or the platform
    /// refused to create the process.
    Spawn,
    /// The operating system reported that the running backend could not
    /// be signalled for termination.
    Termination,
}

impl SupervisorError {
    /// The operator-facing description of this failure stage.
    pub open spec fn message_spec(&self) -> Seq<char> {
        match *self {
            SupervisorError::PathResolution => "failed to resolve the app data directory"@,
            SupervisorError::DirectoryCreate => "failed to create the app data directory"@,
            SupervisorError::Spawn => "failed to spawn the backend"@,
            SupervisorError::Termination => "failed to signal the backend for termination"@,
        }
    }

    /// Diagnostic text for logs; the caller appends whatever underlying
    /// platform message it observed.
    pub fn message(&self) -> (r: String)
        ensures
            r@ == self.message_spec(),
    {
        match *self {
            SupervisorError::PathResolution => String::from_str("failed to resolve the app data directory"),
            SupervisorError::DirectoryCreate => String::from_str("failed to create the app data directory"),
            SupervisorError::Spawn => String::from_str("failed to spawn the backend"),
            SupervisorError::Termination => String::from_str("failed to signal the backend for termination"),
        }
    }
}

} // verus!
