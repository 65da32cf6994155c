//! The device-path error taxonomy and the stage each error aborts.
//!
//! Every failure on the accelerator path is fatal to that path as a whole:
//! the orchestrator does not retry a stage, it reports the failed stage and
//! defers recovery to the host fallback.

use vstd::prelude::*;
use vstd::string::StringExecFns;

verus! {

/// The decimal digit character for a value below ten.
pub open spec fn spec_digit_char(d: int) -> char {
    if d == 0 {
        '0'
    } else if d == 1 {
        '1'
    } else if d == 2 {
        '2'
    } else if d == 3 {
        '3'
    } else if d == 4 {
        '4'
    } else if d == 5 {
        '5'
    } else if d == 6 {
        '6'
    } else if d == 7 {
        '7'
    } else if d == 8 {
        '8'
    } else {
        '9'
    }
}

/// The decimal rendering of a natural number, most significant digit first.
pub open spec fn spec_decimal(n: nat) -> Seq<char>
    decreases n,
{
    if n < 10 {
        seq![spec_digit_char(n as int)]
    } else {
        spec_decimal(n / 10) + seq![spec_digit_char((n % 10) as int)]
    }
}

/// The decimal rendering of a possibly negative number.
pub open spec fn spec_signed_decimal(n: int) -> Seq<char> {
    if n < 0 {
        seq!['-'] + spec_decimal((-n) as nat)
    } else {
        spec_decimal(n as nat)
    }
}

/// The one-character string of a decimal digit.
fn digit_str(d: usize) -> (r: &'static str)
    requires
        d < 10,
    ensures
        r@ =~= seq![spec_digit_char(d as int)],
{
    proof {
        reveal_strlit("0");
        reveal_strlit("1");
        reveal_strlit("2");
        reveal_strlit("3");
        reveal_strlit("4");
        reveal_strlit("5");
        reveal_strlit("6");
        reveal_strlit("7");
        reveal_strlit("8");
        reveal_strlit("9");
    }
    match d {
        0 => "0",
        1 => "1",
        2 => "2",
        3 => "3",
        4 => "4",
        5 => "5",
        6 => "6",
        7 => "7",
        8 => "8",
        _ => "9",
    }
}

/// Renders a number in decimal.
pub fn usize_to_decimal(n: usize) -> (s: String)
    ensures
        s@ == spec_decimal(n as nat),
    decreases n,
{
    if n < 10 {
        digit_str(n).to_owned()
    } else {
        let mut s = usize_to_decimal(n / 10);
        s.append(digit_str(n % 10));
        s
    }
}

/// Renders a status code in decimal, with a leading minus for a negative
/// one (OpenCL status codes are negative).
pub fn code_to_decimal(code: i32) -> (s: String)
    ensures
        s@ == spec_signed_decimal(code as int),
{
    if code >= 0 {
        usize_to_decimal(code as usize)
    } else {
        let magnitude = (-(code as i64)) as usize;
        let mut s = "-".to_owned();
        s.append(usize_to_decimal(magnitude).as_str());
        proof {
            reveal_strlit("-");
            assert(s@ =~= spec_signed_decimal(code as int));
        }
        s
    }
}

/// The stages of the device path at which it can abort.
#[derive(Clone, Copy, PartialEq, Eq, Structural, Debug)]
pub enum Stage {
    Enumeration,
    DeviceSelection,
    ContextCreation,
    QueueCreation,
    Allocation,
    Build,
    KernelLookup,
    ArgumentBinding,
    WriteSubmission,
    DispatchSubmission,
    ReadSubmission,
    Finish,
}

/// Why a prebuilt kernel binary could not be used: the artifact was not
/// there to read, or the device rejected it at build time.
#[derive(Clone, Copy, PartialEq, Eq, Structural, Debug)]
pub enum BinaryLoadFailure {
    ArtifactUnavailable,
    Rejected { code: i32 },
}

/// The direction of a failed non-blocking transfer.
#[derive(Clone, Copy, PartialEq, Eq, Structural, Debug)]
pub enum TransferDirection {
    HostToDevice,
    DeviceToHost,
}

/// A failure of the device path. Raw OpenCL status codes are carried as
/// plain `i32` values; a source-compilation failure carries the build log
/// beside the binary-load failure that preceded it.
#[derive(Debug)]
pub enum DeviceError {
    EnumerationError { code: i32 },
    IndexError { requested: usize, available: usize },
    ContextCreationError { code: i32 },
    QueueCreationError { code: i32 },
    AllocationError { code: i32 },
    TransferError { direction: TransferDirection, code: i32 },
    BuildError { binary: BinaryLoadFailure, source_log: String },
    NoProgramError,
    KernelLookupError { code: i32 },
    ArgumentBindError { index: u32, code: i32 },
    DispatchError { code: i32 },
    FinishError { code: i32 },
}

impl DeviceError {
    /// The stage of the device path that this error aborts.
    pub fn stage(&self) -> (s: Stage)
        ensures
            s == self.spec_stage(),
    {
        match self {
            DeviceError::EnumerationError { .. } => Stage::Enumeration,
            DeviceError::IndexError { .. } => Stage::DeviceSelection,
            DeviceError::ContextCreationError { .. } => Stage::ContextCreation,
            DeviceError::QueueCreationError { .. } => Stage::QueueCreation,
            DeviceError::AllocationError { .. } => Stage::Allocation,
            DeviceError::TransferError { direction, .. } => match direction {
                TransferDirection::HostToDevice => Stage::WriteSubmission,
                TransferDirection::DeviceToHost => Stage::ReadSubmission,
            },
            DeviceError::BuildError { .. } => Stage::Build,
            DeviceError::NoProgramError => Stage::Build,
            DeviceError::KernelLookupError { .. } => Stage::KernelLookup,
            DeviceError::ArgumentBindError { .. } => Stage::ArgumentBinding,
            DeviceError::DispatchError { .. } => Stage::DispatchSubmission,
            DeviceError::FinishError { .. } => Stage::Finish,
        }
    }

    /// The stage a given error belongs to.
    pub open spec fn spec_stage(&self) -> Stage {
        match self {
            DeviceError::EnumerationError { .. } => Stage::Enumeration,
            DeviceError::IndexError { .. } => Stage::DeviceSelection,
            DeviceError::ContextCreationError { .. } => Stage::ContextCreation,
            DeviceError::QueueCreationError { .. } => Stage::QueueCreation,
            DeviceError::AllocationError { .. } => Stage::Allocation,
            DeviceError::TransferError { direction, .. } => match direction {
                TransferDirection::HostToDevice => Stage::WriteSubmission,
                TransferDirection::DeviceToHost => Stage::ReadSubmission,
            },
            DeviceError::BuildError { .. } => Stage::Build,
            DeviceError::NoProgramError => Stage::Build,
            DeviceError::KernelLookupError { .. } => Stage::KernelLookup,
            DeviceError::ArgumentBindError { .. } => Stage::ArgumentBinding,
            DeviceError::DispatchError { .. } => Stage::DispatchSubmission,
            DeviceError::FinishError { .. } => Stage::Finish,
        }
    }

    /// The diagnostic line of each error. An `IndexError` names both the
    /// requested index and the available count; code-carrying errors name
    /// their status code; a build failure carries the compiler's log.
    pub open spec fn spec_message(&self) -> Seq<char> {
        match self {
            DeviceError::EnumerationError { code } => "error enumerating devices: "@
                + spec_signed_decimal(*code as int),
            DeviceError::IndexError { requested, available } => "requesting device number "@
                + spec_decimal(*requested as nat) + ", but only "@
                + spec_decimal(*available as nat) + " exist"@,
            DeviceError::ContextCreationError { code } => "error getting context: "@
                + spec_signed_decimal(*code as int),
            DeviceError::QueueCreationError { code } => "not able to create command queue: "@
                + spec_signed_decimal(*code as int),
            DeviceError::AllocationError { code } => "error creating buffer: "@
                + spec_signed_decimal(*code as int),
            DeviceError::TransferError { direction, code } => (match direction {
                TransferDirection::HostToDevice => "error writing buffer: "@,
                TransferDirection::DeviceToHost => "error reading buffer: "@,
            }) + spec_signed_decimal(*code as int),
            DeviceError::BuildError { source_log, .. } => "error building kernel from source: "@
                + source_log@,
            DeviceError::NoProgramError => "no programs built"@,
            DeviceError::KernelLookupError { code } => "not able to get kernel: "@
                + spec_signed_decimal(*code as int),
            DeviceError::ArgumentBindError { index, code } => "error setting kernel argument "@
                + spec_decimal(*index as nat) + ": "@ + spec_signed_decimal(*code as int),
            DeviceError::DispatchError { code } => "error executing kernel: "@
                + spec_signed_decimal(*code as int),
            DeviceError::FinishError { code } => "cannot finish queue: "@
                + spec_signed_decimal(*code as int),
        }
    }

    /// Renders the diagnostic line of this error.
    pub fn message(&self) -> (s: String)
        ensures
            s@ == self.spec_message(),
    {
        match self {
            DeviceError::EnumerationError { code } => {
                let mut s = "error enumerating devices: ".to_owned();
                s.append(code_to_decimal(*code).as_str());
                s
            },
            DeviceError::IndexError { requested, available } => {
                let mut s = "requesting device number ".to_owned();
                s.append(usize_to_decimal(*requested).as_str());
                s.append(", but only ");
                s.append(usize_to_decimal(*available).as_str());
                s.append(" exist");
                s
            },
            DeviceError::ContextCreationError { code } => {
                let mut s = "error getting context: ".to_owned();
                s.append(code_to_decimal(*code).as_str());
                s
            },
            DeviceError::QueueCreationError { code } => {
                let mut s = "not able to create command queue: ".to_owned();
                s.append(code_to_decimal(*code).as_str());
                s
            },
            DeviceError::AllocationError { code } => {
                let mut s = "error creating buffer: ".to_owned();
                s.append(code_to_decimal(*code).as_str());
                s
            },
            DeviceError::TransferError { direction, code } => {
                let mut s = match direction {
                    TransferDirection::HostToDevice => "error writing buffer: ".to_owned(),
                    TransferDirection::DeviceToHost => "error reading buffer: ".to_owned(),
                };
                s.append(code_to_decimal(*code).as_str());
                s
            },
            DeviceError::BuildError { source_log, .. } => {
                let mut s = "error building kernel from source: ".to_owned();
                s.append(source_log.as_str());
                s
            },
            DeviceError::NoProgramError => "no programs built".to_owned(),
            DeviceError::KernelLookupError { code } => {
                let mut s = "not able to get kernel: ".to_owned();
                s.append(code_to_decimal(*code).as_str());
                s
            },
            DeviceError::ArgumentBindError { index, code } => {
                let mut s = "error setting kernel argument ".to_owned();
                s.append(usize_to_decimal(*index as usize).as_str());
                s.append(": ");
                s.append(code_to_decimal(*code).as_str());
                s
            },
            DeviceError::DispatchError { code } => {
                let mut s = "error executing kernel: ".to_owned();
                s.append(code_to_decimal(*code).as_str());
                s
            },
            DeviceError::FinishError { code } => {
                let mut s = "cannot finish queue: ".to_owned();
                s.append(code_to_decimal(*code).as_str());
                s
            },
        }
    }
}

} // verus!
