//! The exit codes a command can end with: the sysexits subset the tool publishes, the one
//! sanctioned non-sysexits code, and a guest's own status relayed verbatim.
use vstd::prelude::*;

verus! {

/// What a command's outcome costs the caller reading `$?`.
#[derive(Clone, Copy, Debug, PartialEq, Eq, Structural)]
pub enum ExitKind {
    Success,
    /// A malformed invocation.
    Usage,
    /// Input data that could not be used.
    DataErr,
    /// A service or resource the command needs is not available.
    Unavailable,
    /// An internal fault.
    Software,
    /// An I/O failure.
    IoErr,
    /// A temporary condition; retrying may succeed.
    TempFail,
    /// A permission the command needs is missing.
    NoPerm,
    /// A configuration problem.
    Config,
    /// `doctor --strict` found a warning.
    DoctorStrict,
    /// A guest process's own status, relayed unchanged.
    GuestStatus(u8),
}

/// The number each exit kind stands for.
pub open spec fn code_of(kind: ExitKind) -> u8 {
    match kind {
        ExitKind::Success => 0,
        ExitKind::Usage => 64,
        ExitKind::DataErr => 65,
        ExitKind::Unavailable => 69,
        ExitKind::Software => 70,
        ExitKind::IoErr => 74,
        ExitKind::TempFail => 75,
        ExitKind::NoPerm => 77,
        ExitKind::Config => 78,
        ExitKind::DoctorStrict => 1,
        ExitKind::GuestStatus(status) => status,
    }
}

impl ExitKind {
    /// The process exit status for this kind.
    pub fn code(self) -> (code: u8)
        ensures
            code == code_of(self),
    {
        match self {
            ExitKind::Success => 0,
            ExitKind::Usage => 64,
            ExitKind::DataErr => 65,
            ExitKind::Unavailable => 69,
            ExitKind::Software => 70,
            ExitKind::IoErr => 74,
            ExitKind::TempFail => 75,
            ExitKind::NoPerm => 77,
            ExitKind::Config => 78,
            ExitKind::DoctorStrict => 1,
            ExitKind::GuestStatus(status) => status,
        }
    }
}

} // verus!
