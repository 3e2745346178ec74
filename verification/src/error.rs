//! The faults of a session, the stage each belongs to, and what each means for
//! the process.

use crate::elf::MalformedBinary;
use crate::event::DecodeFault;
use crate::probe::Target;
use crate::resolve::ResolveError;
use vstd::prelude::*;
use vstd::string::StringExecFns;

verus! {

/// The part of a session in which a fault arises.
#[derive(Clone, Copy, Debug, PartialEq, Eq, Structural)]
pub enum Stage {
    Analysis,
    Resolution,
    Open,
    Load,
    Attach,
    Poll,
    Decode,
}

/// Everything that can go wrong in a session.
#[derive(Clone, Debug, PartialEq, Eq)]
pub enum Fault {
    /// The image is not a 64-bit ELF file with a dynamic table.
    MalformedBinary,
    /// The image does not depend on the C runtime.
    NoRuntimeDependency,
    /// No directory of the search path holds the C runtime.
    RuntimeLibraryNotFound,
    /// The backend did not open the instrumentation object.
    ProgramOpenFailed,
    /// The backend did not load the instrumentation object.
    ProgramLoadFailed,
    /// One probe could not be bound.
    ProbeAttachFailed { program: String, target: Target, symbol: String },
    /// A sample does not have the layout of its channel.
    Decode(DecodeFault),
    /// The backend's polling primitive failed.
    PollError,
}

/// A fault as mathematics.
pub enum FaultModel {
    MalformedBinary,
    NoRuntimeDependency,
    RuntimeLibraryNotFound,
    ProgramOpenFailed,
    ProgramLoadFailed,
    ProbeAttachFailed { program: Seq<char>, target: Target, symbol: Seq<char> },
    Decode(DecodeFault),
    PollError,
}

impl FaultModel {
    /// The stage in which the fault arises.
    pub open spec fn stage(self) -> Stage {
        match self {
            FaultModel::MalformedBinary => Stage::Analysis,
            FaultModel::NoRuntimeDependency => Stage::Resolution,
            FaultModel::RuntimeLibraryNotFound => Stage::Resolution,
            FaultModel::ProgramOpenFailed => Stage::Open,
            FaultModel::ProgramLoadFailed => Stage::Load,
            FaultModel::ProbeAttachFailed { .. } => Stage::Attach,
            FaultModel::Decode(_) => Stage::Decode,
            FaultModel::PollError => Stage::Poll,
        }
    }

    /// The fault ends the session. Only a sample that cannot be decoded does
    /// not: it is reported, and polling goes on.
    pub open spec fn fatal(self) -> bool {
        !(self is Decode)
    }

    /// The status with which the process exits on the fault: zero for the one
    /// fault that does not end the session, and a number of its own for each
    /// other kind.
    pub open spec fn exit_status(self) -> u8 {
        match self {
            FaultModel::Decode(_) => 0,
            FaultModel::MalformedBinary => 2,
            FaultModel::NoRuntimeDependency => 3,
            FaultModel::RuntimeLibraryNotFound => 4,
            FaultModel::ProgramOpenFailed => 5,
            FaultModel::ProgramLoadFailed => 6,
            FaultModel::ProbeAttachFailed { .. } => 7,
            FaultModel::PollError => 8,
        }
    }
}

impl View for Fault {
    type V = FaultModel;

    open spec fn view(&self) -> FaultModel {
        match *self {
            Fault::MalformedBinary => FaultModel::MalformedBinary,
            Fault::NoRuntimeDependency => FaultModel::NoRuntimeDependency,
            Fault::RuntimeLibraryNotFound => FaultModel::RuntimeLibraryNotFound,
            Fault::ProgramOpenFailed => FaultModel::ProgramOpenFailed,
            Fault::ProgramLoadFailed => FaultModel::ProgramLoadFailed,
            Fault::ProbeAttachFailed { program, target, symbol } => FaultModel::ProbeAttachFailed {
                program: program@,
                target,
                symbol: symbol@,
            },
            Fault::Decode(fault) => FaultModel::Decode(fault),
            Fault::PollError => FaultModel::PollError,
        }
    }
}

impl Fault {
    /// The fault of an image that cannot be analysed.
    pub fn from_analysis(error: MalformedBinary) -> (fault: Fault)
        ensures
            fault@ == FaultModel::MalformedBinary,
    {
        Fault::MalformedBinary
    }

    /// The fault of a resolution that failed.
    pub fn from_resolution(error: ResolveError) -> (fault: Fault)
        ensures
            fault@ == match error {
                ResolveError::NoRuntimeDependency => FaultModel::NoRuntimeDependency,
                ResolveError::RuntimeLibraryNotFound => FaultModel::RuntimeLibraryNotFound,
            },
    {
        match error {
            ResolveError::NoRuntimeDependency => Fault::NoRuntimeDependency,
            ResolveError::RuntimeLibraryNotFound => Fault::RuntimeLibraryNotFound,
        }
    }

    /// The stage in which the fault arose.
    pub fn stage(&self) -> (stage: Stage)
        ensures
            stage == self@.stage(),
    {
        match self {
            Fault::MalformedBinary => Stage::Analysis,
            Fault::NoRuntimeDependency => Stage::Resolution,
            Fault::RuntimeLibraryNotFound => Stage::Resolution,
            Fault::ProgramOpenFailed => Stage::Open,
            Fault::ProgramLoadFailed => Stage::Load,
            Fault::ProbeAttachFailed { .. } => Stage::Attach,
            Fault::Decode(_) => Stage::Decode,
            Fault::PollError => Stage::Poll,
        }
    }

    /// Tells whether the fault ends the session.
    pub fn is_fatal(&self) -> (fatal: bool)
        ensures
            fatal == self@.fatal(),
    {
        match self {
            Fault::Decode(_) => false,
            _ => true,
        }
    }

    /// The status with which the process exits on this fault.
    pub fn exit_status(&self) -> (status: u8)
        ensures
            status == self@.exit_status(),
            (status != 0) == self@.fatal(),
    {
        match self {
            Fault::Decode(_) => 0,
            Fault::MalformedBinary => 2,
            Fault::NoRuntimeDependency => 3,
            Fault::RuntimeLibraryNotFound => 4,
            Fault::ProgramOpenFailed => 5,
            Fault::ProgramLoadFailed => 6,
            Fault::ProbeAttachFailed { .. } => 7,
            Fault::PollError => 8,
        }
    }
}

/// What a fault of each stage is called in a message.
pub open spec fn stage_name(stage: Stage) -> Seq<char> {
    match stage {
        Stage::Analysis => "binary analysis"@,
        Stage::Resolution => "runtime library resolution"@,
        Stage::Open => "program open"@,
        Stage::Load => "program load"@,
        Stage::Attach => "probe attachment"@,
        Stage::Poll => "polling"@,
        Stage::Decode => "sample decoding"@,
    }
}

/// The name of a stage, for messages.
pub fn describe_stage(stage: Stage) -> (name: String)
    ensures
        name@ == stage_name(stage),
{
    match stage {
        Stage::Analysis => String::from_str("binary analysis"),
        Stage::Resolution => String::from_str("runtime library resolution"),
        Stage::Open => String::from_str("program open"),
        Stage::Load => String::from_str("program load"),
        Stage::Attach => String::from_str("probe attachment"),
        Stage::Poll => String::from_str("polling"),
        Stage::Decode => String::from_str("sample decoding"),
    }
}

} // verus!
