//! Status codes of the storage subsystem and the errors of this crate.

use vstd::prelude::*;

verus! {

/// Status code: the call succeeded.
pub const ESP_OK: i32 = 0;

/// Status code: failure without a more specific reason.
pub const ESP_FAIL: i32 = -1;

/// Status code: the subsystem is not in a state that allows the call.
pub const ESP_ERR_INVALID_STATE: i32 = 0x103;

/// Status code: a length or size is not acceptable.
pub const ESP_ERR_INVALID_SIZE: i32 = 0x104;

/// Status code: what was asked for does not exist.
pub const ESP_ERR_NOT_FOUND: i32 = 0x105;

/// Status code: the operation is not supported.
pub const ESP_ERR_NOT_SUPPORTED: i32 = 0x106;

/// Why an operation of this crate failed.
#[derive(Clone, Copy, Debug, PartialEq, Eq, Structural)]
pub enum OtaError {
    /// A manager was asked for while another one is held.
    AlreadyHeld,
    /// The update session is closed.
    NotOpen,
    /// The firmware descriptor was asked for before all its bytes arrived, or
    /// a region is too short or too long for what it has to hold.
    InvalidSize,
    /// There is no factory partition.
    NotSupported,
    /// The storage subsystem reported this status code, which is never
    /// [`ESP_OK`] in an error that this crate hands out.
    NativeFailure(i32),
}

impl OtaError {
    /// The status code under which the storage subsystem's own API knows this
    /// error.
    pub open spec fn spec_code(self) -> i32 {
        match self {
            OtaError::AlreadyHeld => ESP_ERR_INVALID_STATE,
            OtaError::NotOpen => ESP_FAIL,
            OtaError::InvalidSize => ESP_ERR_INVALID_SIZE,
            OtaError::NotSupported => ESP_ERR_NOT_SUPPORTED,
            OtaError::NativeFailure(code) => code,
        }
    }

    /// Whether the error's status code tells it from success.
    pub open spec fn is_failure(self) -> bool {
        self.spec_code() != ESP_OK
    }

    /// What a status code of the storage subsystem amounts to: success for
    /// [`ESP_OK`], and for every other code a failure that carries it.
    pub open spec fn spec_check(status: i32) -> Result<(), OtaError> {
        if status == ESP_OK {
            Ok(())
        } else {
            Err(OtaError::NativeFailure(status))
        }
    }

    /// The status code under which the storage subsystem's own API knows this
    /// error.
    pub fn code(&self) -> (code: i32)
        ensures
            code == self.spec_code(),
    {
        match self {
            OtaError::AlreadyHeld => ESP_ERR_INVALID_STATE,
            OtaError::NotOpen => ESP_FAIL,
            OtaError::InvalidSize => ESP_ERR_INVALID_SIZE,
            OtaError::NotSupported => ESP_ERR_NOT_SUPPORTED,
            OtaError::NativeFailure(code) => *code,
        }
    }

    /// Turns the status code of a finished native call into a result:
    /// `Ok` for [`ESP_OK`] and only for it, else the code as a
    /// [`OtaError::NativeFailure`].
    pub fn check(status: i32) -> (r: Result<(), OtaError>)
        ensures
            r == Self::spec_check(status),
            r is Ok <==> status == ESP_OK,
    {
        if status == ESP_OK {
            Ok(())
        } else {
            Err(OtaError::NativeFailure(status))
        }
    }
}

} // verus!
