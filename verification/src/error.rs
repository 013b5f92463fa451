//! Error kinds and the status codes that the host is given for them.

use vstd::prelude::*;

verus! {

/// Everything that can go wrong in this layer, one variant per kind.
#[derive(Clone, Copy, Debug, PartialEq, Eq, Structural)]
pub enum Error {
    /// An unexpected failure that is not one of the modelled kinds.
    Generic,
    /// Persisted bytes are truncated, damaged or of an unknown format.
    CorruptData,
    /// The host allocator has no block left.
    AllocationFailed,
    /// The host does not offer a suite that was asked for.
    MissingSuite,
    /// A live value could not be turned into bytes.
    InternalStructDamaged,
    /// An index or identifier that the parameter registry does not know.
    InvalidIndex,
    /// A parameter of a kind that this layer does not know.
    UnrecognizedParameterType,
    /// The host cannot call this module, or the module refuses the host.
    InvalidCallback,
    /// A pointer that a command needs was null.
    BadCallbackParameter,
    /// The user interrupted the operation.
    InterruptCancel,
    /// A handle was made from a null pointer.
    NullHandle,
    /// The block is locked elsewhere, or is not a live block at all.
    LockFailed,
    /// A parameter identifier was declared twice.
    DuplicateParameter,
    /// A parameter was declared after the registry was frozen.
    RegistryFrozen,
    /// The host described a parameter by a tag that names no kind of
    /// parameter that this layer reads.
    InvalidParms,
}

/// The status of a command that succeeded.
pub const STATUS_OK: i32 = 0;

impl Error {
    /// The status code of this kind. No two kinds share a code and none is
    /// [`STATUS_OK`].
    pub open spec fn code(self) -> i32 {
        match self {
            Error::Generic => 1,
            Error::CorruptData => 2,
            Error::AllocationFailed => 4,
            Error::MissingSuite => 13,
            Error::InternalStructDamaged => 512,
            Error::InvalidIndex => 513,
            Error::UnrecognizedParameterType => 514,
            Error::InvalidCallback => 515,
            Error::BadCallbackParameter => 516,
            Error::InterruptCancel => 517,
            Error::NullHandle => 1024,
            Error::LockFailed => 1025,
            Error::DuplicateParameter => 1026,
            Error::RegistryFrozen => 1027,
            Error::InvalidParms => 1028,
        }
    }

    /// The kind that a status code stands for, if it stands for one.
    pub open spec fn of_code(code: i32) -> Option<Error> {
        if code == 1 {
            Some(Error::Generic)
        } else if code == 2 {
            Some(Error::CorruptData)
        } else if code == 4 {
            Some(Error::AllocationFailed)
        } else if code == 13 {
            Some(Error::MissingSuite)
        } else if code == 512 {
            Some(Error::InternalStructDamaged)
        } else if code == 513 {
            Some(Error::InvalidIndex)
        } else if code == 514 {
            Some(Error::UnrecognizedParameterType)
        } else if code == 515 {
            Some(Error::InvalidCallback)
        } else if code == 516 {
            Some(Error::BadCallbackParameter)
        } else if code == 517 {
            Some(Error::InterruptCancel)
        } else if code == 1024 {
            Some(Error::NullHandle)
        } else if code == 1025 {
            Some(Error::LockFailed)
        } else if code == 1026 {
            Some(Error::DuplicateParameter)
        } else if code == 1027 {
            Some(Error::RegistryFrozen)
        } else if code == 1028 {
            Some(Error::InvalidParms)
        } else {
            None
        }
    }

    /// The name of this kind, as messages spell it.
    pub open spec fn name_of(self) -> &'static str {
        match self {
            Error::Generic => "Generic",
            Error::CorruptData => "CorruptData",
            Error::AllocationFailed => "AllocationFailed",
            Error::MissingSuite => "MissingSuite",
            Error::InternalStructDamaged => "InternalStructDamaged",
            Error::InvalidIndex => "InvalidIndex",
            Error::UnrecognizedParameterType => "UnrecognizedParameterType",
            Error::InvalidCallback => "InvalidCallback",
            Error::BadCallbackParameter => "BadCallbackParameter",
            Error::InterruptCancel => "InterruptCancel",
            Error::NullHandle => "NullHandle",
            Error::LockFailed => "LockFailed",
            Error::DuplicateParameter => "DuplicateParameter",
            Error::RegistryFrozen => "RegistryFrozen",
            Error::InvalidParms => "InvalidParms",
        }
    }

    /// The name of this kind, as messages spell it.
    pub fn name(self) -> (name: &'static str)
        ensures
            name == self.name_of(),
    {
        match self {
            Error::Generic => "Generic",
            Error::CorruptData => "CorruptData",
            Error::AllocationFailed => "AllocationFailed",
            Error::MissingSuite => "MissingSuite",
            Error::InternalStructDamaged => "InternalStructDamaged",
            Error::InvalidIndex => "InvalidIndex",
            Error::UnrecognizedParameterType => "UnrecognizedParameterType",
            Error::InvalidCallback => "InvalidCallback",
            Error::BadCallbackParameter => "BadCallbackParameter",
            Error::InterruptCancel => "InterruptCancel",
            Error::NullHandle => "NullHandle",
            Error::LockFailed => "LockFailed",
            Error::DuplicateParameter => "DuplicateParameter",
            Error::RegistryFrozen => "RegistryFrozen",
            Error::InvalidParms => "InvalidParms",
        }
    }

    /// The status code that the host is given for this kind.
    pub fn status_code(self) -> (code: i32)
        ensures
            code == self.code(),
            code != STATUS_OK,
            is_status(code),
    {
        match self {
            Error::Generic => 1,
            Error::CorruptData => 2,
            Error::AllocationFailed => 4,
            Error::MissingSuite => 13,
            Error::InternalStructDamaged => 512,
            Error::InvalidIndex => 513,
            Error::UnrecognizedParameterType => 514,
            Error::InvalidCallback => 515,
            Error::BadCallbackParameter => 516,
            Error::InterruptCancel => 517,
            Error::NullHandle => 1024,
            Error::LockFailed => 1025,
            Error::DuplicateParameter => 1026,
            Error::RegistryFrozen => 1027,
            Error::InvalidParms => 1028,
        }
    }

    /// Reads a status code back: `None` for [`STATUS_OK`] and for every
    /// number that is no kind's code.
    pub fn from_status(code: i32) -> (kind: Option<Error>)
        ensures
            kind == Error::of_code(code),
            kind matches Some(e) ==> e.code() == code,
            kind is None <==> (code == STATUS_OK || !is_status(code)),
    {
        match code {
            1 => Some(Error::Generic),
            2 => Some(Error::CorruptData),
            4 => Some(Error::AllocationFailed),
            13 => Some(Error::MissingSuite),
            512 => Some(Error::InternalStructDamaged),
            513 => Some(Error::InvalidIndex),
            514 => Some(Error::UnrecognizedParameterType),
            515 => Some(Error::InvalidCallback),
            516 => Some(Error::BadCallbackParameter),
            517 => Some(Error::InterruptCancel),
            1024 => Some(Error::NullHandle),
            1025 => Some(Error::LockFailed),
            1026 => Some(Error::DuplicateParameter),
            1027 => Some(Error::RegistryFrozen),
            1028 => Some(Error::InvalidParms),
            _ => None,
        }
    }
}

/// Whether a number is in the status domain: success, or the code of a kind.
pub open spec fn is_status(code: i32) -> bool {
    code == STATUS_OK || Error::of_code(code) is Some
}

/// What a status that came back from the host means to the caller.
pub open spec fn status_outcome(code: i32) -> Result<(), Error> {
    if code == STATUS_OK {
        Ok(())
    } else {
        match Error::of_code(code) {
            Some(e) => Err(e),
            None => Err(Error::Generic),
        }
    }
}

/// Turns a status that came back from the host into a result: success for
/// [`STATUS_OK`], the kind for a known code, [`Error::Generic`] for any other
/// number.
pub fn result_from_status(code: i32) -> (r: Result<(), Error>)
    ensures
        r == status_outcome(code),
        r is Ok <==> code == STATUS_OK,
{
    if code == STATUS_OK {
        Ok(())
    } else {
        match Error::from_status(code) {
            Some(e) => Err(e),
            None => Err(Error::Generic),
        }
    }
}

/// The status that a result is reported with.
pub open spec fn outcome_status(r: Result<(), Error>) -> i32 {
    match r {
        Ok(_) => STATUS_OK,
        Err(e) => e.code(),
    }
}

/// Turns a result into the status that the host is given.
pub fn status_from_result(r: Result<(), Error>) -> (code: i32)
    ensures
        code == outcome_status(r),
        is_status(code),
        code == STATUS_OK <==> r is Ok,
{
    match r {
        Ok(_) => STATUS_OK,
        Err(e) => e.status_code(),
    }
}

/// Status codes and error kinds correspond one to one: a kind's code reads
/// back as that kind, and two kinds with one code are one kind.
pub proof fn lemma_status_codes_one_to_one(a: Error, b: Error)
    ensures
        Error::of_code(a.code()) == Some(a),
        a.code() != STATUS_OK,
        a.code() == b.code() ==> a == b,
{
}

/// A result survives the trip to a status and back.
pub proof fn lemma_status_round_trip(r: Result<(), Error>)
    ensures
        status_outcome(outcome_status(r)) == r,
{
    match r {
        Ok(u) => {
            assert(u == ());
        },
        Err(e) => {
            lemma_status_codes_one_to_one(e, e);
        },
    }
}

} // verus!
