//! Exit codes of a guest execution and their external pair representation.

use vstd::prelude::*;

verus! {

/// Error for a pair whose system part is outside the defined range.
/// Carries the offending `(system, user)` values for diagnostics.
#[derive(Debug, Copy, Clone, PartialEq, Eq, Structural)]
pub struct InvalidExitCodeError(pub u32, pub u32);

/// The exit status of an execution: a user-initiated halt or pause
/// carrying a user code, or a system-initiated split or session limit.
#[derive(Clone, Copy, Debug, PartialEq, Eq, Structural)]
pub enum ExitCode {
    Halted(u32),
    Paused(u32),
    SystemSplit,
    SessionLimit,
}

impl ExitCode {
    /// The pair representation of this exit code.
    pub open spec fn spec_into_pair(self) -> (u32, u32) {
        match self {
            ExitCode::Halted(user_exit) => (0u32, user_exit),
            ExitCode::Paused(user_exit) => (1u32, user_exit),
            ExitCode::SystemSplit => (2u32, 0u32),
            ExitCode::SessionLimit => (2u32, 2u32),
        }
    }

    /// The exit code a pair represents: `Ok` exactly when the system part
    /// is one of the three defined values, `Err` otherwise, carrying the
    /// offending pair.
    pub open spec fn spec_from_pair(sys_exit: u32, user_exit: u32) -> Result<
        ExitCode,
        InvalidExitCodeError,
    > {
        if sys_exit == 0 {
            Ok(ExitCode::Halted(user_exit))
        } else if sys_exit == 1 {
            Ok(ExitCode::Paused(user_exit))
        } else if sys_exit == 2 {
            if user_exit == 2 {
                Ok(ExitCode::SessionLimit)
            } else {
                Ok(ExitCode::SystemSplit)
            }
        } else {
            Err(InvalidExitCodeError(sys_exit, user_exit))
        }
    }

    /// Convert this exit code into a pair representation, where the first
    /// number is the "system" part, and the second is the "user" part.
    /// E.g. `Halted(255)` becomes `(0, 255)`.
    pub fn into_pair(self) -> (r: (u32, u32))
        ensures
            r == self.spec_into_pair(),
    {
        match self {
            ExitCode::Halted(user_exit) => (0, user_exit),
            ExitCode::Paused(user_exit) => (1, user_exit),
            ExitCode::SystemSplit => (2, 0),
            ExitCode::SessionLimit => (2, 2),
        }
    }

    /// Convert an exit code from its pair representation. Succeeds exactly
    /// when the system part is in `{0, 1, 2}`; the error carries the
    /// offending pair.
    pub fn from_pair(sys_exit: u32, user_exit: u32) -> (r: Result<
        ExitCode,
        InvalidExitCodeError,
    >)
        ensures
            r == Self::spec_from_pair(sys_exit, user_exit),
            r is Ok <==> sys_exit <= 2,
    {
        match sys_exit {
            0 => Ok(ExitCode::Halted(user_exit)),
            1 => Ok(ExitCode::Paused(user_exit)),
            2 => if user_exit == 2 {
                Ok(ExitCode::SessionLimit)
            } else {
                Ok(ExitCode::SystemSplit)
            },
            _ => Err(InvalidExitCodeError(sys_exit, user_exit)),
        }
    }

    /// Whether a verifier should expect a non-empty output field: true
    /// exactly for the user-initiated exits `Halted` and `Paused`.
    pub fn expects_output(&self) -> (r: bool)
        ensures
            r == (self is Halted || self is Paused),
    {
        match self {
            ExitCode::Halted(_) | ExitCode::Paused(_) => true,
            ExitCode::SystemSplit | ExitCode::SessionLimit => false,
        }
    }

    /// True exactly for `Halted(0)`: the guest exited with an ok status.
    pub fn is_ok(&self) -> (r: bool)
        ensures
            r == (*self == ExitCode::Halted(0)),
    {
        matches!(self, ExitCode::Halted(0))
    }
}

/// Every exit code is exactly recovered from its pair representation: the
/// pair codec is invertible on all defined exit codes.
pub proof fn lemma_exit_code_round_trip(ec: ExitCode)
    ensures
        ExitCode::spec_from_pair(ec.spec_into_pair().0, ec.spec_into_pair().1) == Ok::<
            ExitCode,
            InvalidExitCodeError,
        >(ec),
{
}

} // verus!
