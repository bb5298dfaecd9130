//! Failure kinds of the lock and their exit codes.

use vstd::prelude::*;
use vstd::std_specs::convert::FromSpecImpl;

verus! {

/// Failure of a host query, as far as the lock tells the kinds apart.
#[derive(Clone, Copy, Debug, PartialEq, Eq, Structural)]
pub enum HostError {
    /// The index is past the last item of the source.
    IndexOutOfBound,
    /// The item exists, the requested field does not.
    ItemMissing,
    /// The buffer offered to the host was too short.
    LengthNotEnough,
    /// The data could not be decoded.
    Encoding,
}

/// Every reason for which the lock refuses to unlock a cell.
#[derive(Clone, Copy, Debug, PartialEq, Eq, Structural)]
pub enum Error {
    /// The host found no item at the index.
    IndexOutOfBound,
    /// The host found the item without the field.
    ItemMissing,
    /// The host was offered too short a buffer.
    LengthNotEnough,
    /// The host's data could not be decoded.
    Encoding,
    /// The script group holds more than one input.
    MultipleInputs,
    /// The time lock of the input has not reached the required bound.
    InvalidSince,
    /// The unlock byte names neither the settlement path nor a pending HTLC.
    InvalidUnlockType,
    /// Reserved.
    InvalidHtlcType,
    /// The script argument is not 20 bytes long.
    ArgsLenError,
    /// The witness length fits no number of pending HTLCs.
    WitnessLenError,
    /// The witness does not start with the empty witness arguments.
    EmptyWitnessArgsError,
    /// The witness script does not hash to the script argument.
    WitnessHashError,
    /// The successor cell does not hold the capacity that it has to.
    OutputCapacityError,
    /// The successor cell does not run this lock on the remaining HTLCs.
    OutputLockError,
    /// The successor cell does not carry the type script of the input.
    OutputTypeError,
    /// The successor cell does not hold the tokens that remain.
    OutputUdtAmountError,
    /// The preimage is missing or does not hash to the payment hash.
    PreimageError,
    /// The signature verifier could not be started.
    AuthError,
}

impl Error {
    /// The exit code that the script reports for this failure.
    pub open spec fn spec_code(self) -> i8 {
        match self {
            Error::IndexOutOfBound => 1,
            Error::ItemMissing => 2,
            Error::LengthNotEnough => 3,
            Error::Encoding => 4,
            Error::MultipleInputs => 5,
            Error::InvalidSince => 6,
            Error::InvalidUnlockType => 7,
            Error::InvalidHtlcType => 8,
            Error::ArgsLenError => 9,
            Error::WitnessLenError => 10,
            Error::EmptyWitnessArgsError => 11,
            Error::WitnessHashError => 12,
            Error::OutputCapacityError => 13,
            Error::OutputLockError => 14,
            Error::OutputTypeError => 15,
            Error::OutputUdtAmountError => 16,
            Error::PreimageError => 17,
            Error::AuthError => 18,
        }
    }

    /// The exit code that the script reports for this failure: never zero,
    /// and a different one for each kind.
    #[verifier::when_used_as_spec(spec_code)]
    pub fn code(self) -> (code: i8)
        ensures
            code == self.spec_code(),
            1 <= code <= 18,
    {
        match self {
            Error::IndexOutOfBound => 1,
            Error::ItemMissing => 2,
            Error::LengthNotEnough => 3,
            Error::Encoding => 4,
            Error::MultipleInputs => 5,
            Error::InvalidSince => 6,
            Error::InvalidUnlockType => 7,
            Error::InvalidHtlcType => 8,
            Error::ArgsLenError => 9,
            Error::WitnessLenError => 10,
            Error::EmptyWitnessArgsError => 11,
            Error::WitnessHashError => 12,
            Error::OutputCapacityError => 13,
            Error::OutputLockError => 14,
            Error::OutputTypeError => 15,
            Error::OutputUdtAmountError => 16,
            Error::PreimageError => 17,
            Error::AuthError => 18,
        }
    }
}

impl From<HostError> for Error {
    /// A failed host query ends the script with the failure of the same name.
    fn from(err: HostError) -> (ret: Error) {
        match err {
            HostError::IndexOutOfBound => Error::IndexOutOfBound,
            HostError::ItemMissing => Error::ItemMissing,
            HostError::LengthNotEnough => Error::LengthNotEnough,
            HostError::Encoding => Error::Encoding,
        }
    }
}

impl FromSpecImpl<HostError> for Error {
    open spec fn obeys_from_spec() -> bool {
        true
    }

    open spec fn from_spec(err: HostError) -> Error {
        host_failure(err)
    }
}

/// The failure with which the script ends when a host query fails with
/// `err`: the one of the same name.
pub open spec fn host_failure(err: HostError) -> Error {
    match err {
        HostError::IndexOutOfBound => Error::IndexOutOfBound,
        HostError::ItemMissing => Error::ItemMissing,
        HostError::LengthNotEnough => Error::LengthNotEnough,
        HostError::Encoding => Error::Encoding,
    }
}

} // verus!
