use vstd::prelude::*;

use crate::status::FAPI_STATUS_SUCCESS;

verus! {

/// Start address of the internal flash.
pub const FLASH_ADDRESS: u32 = 0x0;

/// Size of the internal flash in bytes.
pub const FLASH_SIZE: u32 = 0x5800;

/// Size of a program page in bytes.
pub const PAGE_SIZE: u32 = 0x800;

/// Size of an erase sector in bytes.
pub const SECTOR_SIZE: u32 = 0x800;

/// Address of the first erase sector.
pub const SECTOR_ADDRESS: u32 = 0x0;

/// Value of every byte of an erased sector.
pub const EMPTY_VALUE: u8 = 0xFF;

/// Key that the ROM's erase and program routines take as proof that the
/// caller means to change the flash.
pub const FLASH_API_KEY: u32 = 0xB7E3_A08F;

/// A call into the ROM's flash routines, with the arguments it is given.
/// The data of a program call is handed over beside it.
#[derive(Clone, Copy, Debug, PartialEq, Eq, Structural)]
pub enum RomCall {
    /// Erase the sector that holds `address`.
    SectorErase { key: u32, address: u32 },
    /// Write `length` bytes starting at `address`.
    Program { key: u32, address: u32, length: u32 },
}

/// The call that erases the sector holding `address`.
pub open spec fn sector_erase_spec(address: u32) -> RomCall {
    RomCall::SectorErase { key: FLASH_API_KEY, address }
}

/// The call that writes `length` bytes at `address`.
pub open spec fn program_spec(address: u32, length: u32) -> RomCall {
    RomCall::Program { key: FLASH_API_KEY, address, length }
}

/// The arguments of a sector erase: the authorization key and the address.
pub fn sector_erase_call(address: u32) -> (r: RomCall)
    ensures
        r == sector_erase_spec(address),
{
    RomCall::SectorErase { key: FLASH_API_KEY, address }
}

/// The arguments of a program call: the authorization key, the address and
/// the number of bytes in `data`.
pub fn program_call(data: &[u8], address: u32) -> (r: RomCall)
    requires
        data@.len() <= u32::MAX,
    ensures
        r == program_spec(address, data@.len() as u32),
{
    RomCall::Program { key: FLASH_API_KEY, address, length: data.len() as u32 }
}

/// Erasing the whole bank is switched off on this device: it reports
/// success and leaves the flash as it is.
pub fn flash_bank_erase() -> (r: u32)
    ensures
        r == FAPI_STATUS_SUCCESS,
{
    FAPI_STATUS_SUCCESS
}

} // verus!
