use vstd::prelude::*;

verus! {

/// The ROM routine completed successfully.
pub const FAPI_STATUS_SUCCESS: u32 = 0x0000_0000;

/// The flash state machine is busy.
pub const FAPI_STATUS_FSM_BUSY: u32 = 0x0000_0001;

/// The flash state machine is ready.
pub const FAPI_STATUS_FSM_READY: u32 = 0x0000_0002;

/// A data buffer length was not accepted.
pub const FAPI_STATUS_INCORRECT_DATABUFFER_LENGTH: u32 = 0x0000_0003;

/// The erase or program operation failed.
pub const FAPI_STATUS_FSM_ERROR: u32 = 0x0000_0004;

/// The address is outside the flash.
pub const FAPI_STATUS_ADDRESS_ERROR: u32 = 0x0000_0005;

/// The authorization key was not accepted.
pub const FAPI_STATUS_INVALID_KEY: u32 = 0x0000_0010;

/// A failure status with a documented meaning.
#[derive(Clone, Copy, Debug, PartialEq, Eq, Structural)]
pub enum RomStatus {
    FsmBusy,
    FsmReady,
    IncorrectDataBufferLength,
    FsmError,
    AddressError,
    InvalidKey,
}

/// Why a flash operation failed.
#[derive(Clone, Copy, Debug, PartialEq, Eq, Structural)]
pub enum FlashError {
    /// The ROM returned a documented failure status.
    Rom(RomStatus),
    /// The ROM returned a nonzero status that has no documented meaning.
    UnknownRomStatus(u32),
}

/// The status word that stands for each documented failure.
pub open spec fn rom_status_code(s: RomStatus) -> u32 {
    match s {
        RomStatus::FsmBusy => FAPI_STATUS_FSM_BUSY,
        RomStatus::FsmReady => FAPI_STATUS_FSM_READY,
        RomStatus::IncorrectDataBufferLength => FAPI_STATUS_INCORRECT_DATABUFFER_LENGTH,
        RomStatus::FsmError => FAPI_STATUS_FSM_ERROR,
        RomStatus::AddressError => FAPI_STATUS_ADDRESS_ERROR,
        RomStatus::InvalidKey => FAPI_STATUS_INVALID_KEY,
    }
}

/// The documented failure that a status word stands for, if any.
pub open spec fn rom_status_of(code: u32) -> Option<RomStatus> {
    if code == FAPI_STATUS_FSM_BUSY {
        Some(RomStatus::FsmBusy)
    } else if code == FAPI_STATUS_FSM_READY {
        Some(RomStatus::FsmReady)
    } else if code == FAPI_STATUS_INCORRECT_DATABUFFER_LENGTH {
        Some(RomStatus::IncorrectDataBufferLength)
    } else if code == FAPI_STATUS_FSM_ERROR {
        Some(RomStatus::FsmError)
    } else if code == FAPI_STATUS_ADDRESS_ERROR {
        Some(RomStatus::AddressError)
    } else if code == FAPI_STATUS_INVALID_KEY {
        Some(RomStatus::InvalidKey)
    } else {
        None
    }
}

/// What a status word returned by the ROM means.
pub open spec fn decoded(status: u32) -> Result<(), FlashError> {
    if status == FAPI_STATUS_SUCCESS {
        Ok(())
    } else {
        match rom_status_of(status) {
            Some(s) => Err(FlashError::Rom(s)),
            None => Err(FlashError::UnknownRomStatus(status)),
        }
    }
}

/// The status word that an error reports.
pub open spec fn error_code(e: FlashError) -> u32 {
    match e {
        FlashError::Rom(s) => rom_status_code(s),
        FlashError::UnknownRomStatus(code) => code,
    }
}

impl RomStatus {
    /// The documented failure that `code` stands for, or `None`.
    pub fn from_code(code: u32) -> (r: Option<RomStatus>)
        ensures
            r == rom_status_of(code),
    {
        if code == FAPI_STATUS_FSM_BUSY {
            Some(RomStatus::FsmBusy)
        } else if code == FAPI_STATUS_FSM_READY {
            Some(RomStatus::FsmReady)
        } else if code == FAPI_STATUS_INCORRECT_DATABUFFER_LENGTH {
            Some(RomStatus::IncorrectDataBufferLength)
        } else if code == FAPI_STATUS_FSM_ERROR {
            Some(RomStatus::FsmError)
        } else if code == FAPI_STATUS_ADDRESS_ERROR {
            Some(RomStatus::AddressError)
        } else if code == FAPI_STATUS_INVALID_KEY {
            Some(RomStatus::InvalidKey)
        } else {
            None
        }
    }

    /// The status word that stands for this failure.
    pub fn code(&self) -> (r: u32)
        ensures
            r == rom_status_code(*self),
    {
        match self {
            RomStatus::FsmBusy => FAPI_STATUS_FSM_BUSY,
            RomStatus::FsmReady => FAPI_STATUS_FSM_READY,
            RomStatus::IncorrectDataBufferLength => FAPI_STATUS_INCORRECT_DATABUFFER_LENGTH,
            RomStatus::FsmError => FAPI_STATUS_FSM_ERROR,
            RomStatus::AddressError => FAPI_STATUS_ADDRESS_ERROR,
            RomStatus::InvalidKey => FAPI_STATUS_INVALID_KEY,
        }
    }
}

impl FlashError {
    /// An error that decoding can produce: an unknown status is nonzero and
    /// has no documented meaning.
    pub open spec fn wf(&self) -> bool {
        match *self {
            FlashError::Rom(_) => true,
            FlashError::UnknownRomStatus(code) => code != FAPI_STATUS_SUCCESS && rom_status_of(
                code,
            ) is None,
        }
    }

    /// The status word that the ROM returned for this error.
    pub fn code(&self) -> (r: u32)
        ensures
            r == error_code(*self),
            self.wf() ==> r != FAPI_STATUS_SUCCESS,
    {
        match self {
            FlashError::Rom(s) => s.code(),
            FlashError::UnknownRomStatus(code) => *code,
        }
    }
}

/// Turns the status word of a ROM call into a result: zero is success, a
/// documented code is its failure, any other code is an unknown status.
pub fn decode_flash_status(status: u32) -> (r: Result<(), FlashError>)
    ensures
        r == decoded(status),
        r matches Err(e) ==> e.wf() && error_code(e) == status,
{
    if status == FAPI_STATUS_SUCCESS {
        Ok(())
    } else {
        match RomStatus::from_code(status) {
            Some(s) => Err(FlashError::Rom(s)),
            None => Err(FlashError::UnknownRomStatus(status)),
        }
    }
}

/// Each documented failure code decodes to its own failure, and no other
/// code decodes to it.
pub proof fn lemma_decode_documented(s: RomStatus, code: u32)
    ensures
        rom_status_code(s) != FAPI_STATUS_SUCCESS,
        decoded(rom_status_code(s)) == Err::<(), FlashError>(FlashError::Rom(s)),
        decoded(code) == Err::<(), FlashError>(FlashError::Rom(s)) ==> code == rom_status_code(s),
{
}

/// Zero decodes to success.
pub proof fn lemma_decode_success()
    ensures
        decoded(FAPI_STATUS_SUCCESS) == Ok::<(), FlashError>(()),
{
}

/// A nonzero code never decodes to success, and one without a documented
/// meaning decodes to an unknown status that carries it.
pub proof fn lemma_decode_failure(code: u32)
    requires
        code != FAPI_STATUS_SUCCESS,
    ensures
        decoded(code) is Err,
        rom_status_of(code) is None ==> decoded(code) == Err::<(), FlashError>(
            FlashError::UnknownRomStatus(code),
        ),
        decoded(code) matches Err(e) ==> error_code(e) == code,
{
}

} // verus!
