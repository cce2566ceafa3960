//! Which of the two roles a process plays, and how that is decided.

use vstd::prelude::*;
use crate::error::CalliperError;

verus! {

/// What the role resolver found in the process's surroundings.
#[derive(Debug, PartialEq, Eq)]
pub enum RoleSignal {
    /// The spawning service tagged this process with a scenario position.
    Worker(usize),
    /// No tag is present: nobody spawned this process for a scenario.
    NoRoleAssigned,
    /// A tag is present but unreadable.
    Malformed(String),
}

/// The role a process has once its signal is resolved against the number of
/// submitted scenarios.
#[derive(Clone, Copy, Debug, PartialEq, Eq, Structural)]
pub enum Role {
    /// Run the function of the scenario at this position, and nothing else.
    Worker(usize),
    /// Launch the workers and collect their outputs.
    Controller,
}

impl Clone for RoleSignal {
    /// The same signal once more.
    fn clone(&self) -> (signal: Self)
        ensures
            signal == *self,
    {
        match self {
            RoleSignal::Worker(position) => RoleSignal::Worker(*position),
            RoleSignal::NoRoleAssigned => RoleSignal::NoRoleAssigned,
            RoleSignal::Malformed(details) => RoleSignal::Malformed(details.clone()),
        }
    }
}

impl RoleSignal {
    /// The transition out of the unresolved state, for `limit` submitted
    /// scenarios. A position is never clamped and an unreadable tag is never
    /// taken for either role.
    pub open spec fn resolve_spec(self, limit: usize) -> Result<Role, CalliperError> {
        match self {
            RoleSignal::Worker(value) => if value < limit {
                Ok(Role::Worker(value))
            } else {
                Err(CalliperError::RunIdOutOfBounds { value, limit })
            },
            RoleSignal::NoRoleAssigned => Ok(Role::Controller),
            RoleSignal::Malformed(details) => Err(
                CalliperError::EnvironmentSignalMalformed { details },
            ),
        }
    }

    /// Resolves the signal for a run over `limit` scenarios.
    pub fn resolve(self, limit: usize) -> (role: Result<Role, CalliperError>)
        ensures
            role == self.resolve_spec(limit),
    {
        match self {
            RoleSignal::Worker(value) => {
                if value < limit {
                    Ok(Role::Worker(value))
                } else {
                    Err(CalliperError::RunIdOutOfBounds { value, limit })
                }
            },
            RoleSignal::NoRoleAssigned => Ok(Role::Controller),
            RoleSignal::Malformed(details) => Err(
                CalliperError::EnvironmentSignalMalformed { details },
            ),
        }
    }
}

} // verus!
