use vstd::prelude::*;

use crate::config::DYNAMIXEL_DEFAULT_ID;

verus! {

/// Flash address of the user data area.
pub const USER_DATA_ADDR: u32 = 0x8_0000;

/// Items kept in the user data area of the flash.
#[derive(Debug, Clone, Copy, PartialEq, Eq, Structural)]
pub enum Addr {
    Id,
}

impl Addr {
    /// Offset of the item in the user data area.
    pub fn offset(&self) -> (r: u32)
        ensures
            r == 0,
    {
        match *self {
            Addr::Id => 0,
        }
    }

    /// Flash address of the item.
    pub fn flash_address(&self) -> (r: u32)
        ensures
            r == USER_DATA_ADDR,
    {
        USER_DATA_ADDR + self.offset()
    }
}

/// The board id kept in flash: an erased byte (0xFF) means no id was stored, and the
/// default id is used.
pub open spec fn spec_stored_id(stored: u8) -> u8 {
    if stored != 0xff {
        stored
    } else {
        DYNAMIXEL_DEFAULT_ID
    }
}

/// The board id given by the byte read from flash.
pub fn id_from_stored_byte(stored: u8) -> (r: u8)
    ensures
        r == spec_stored_id(stored),
{
    if stored != 0xff {
        stored
    } else {
        DYNAMIXEL_DEFAULT_ID
    }
}

/// An id written to flash is read back, except 0xFF, which reads as the default id.
pub proof fn law_stored_id_read_back(new_id: u8)
    ensures
        new_id != 0xff ==> spec_stored_id(new_id) == new_id,
        spec_stored_id(0xff) == DYNAMIXEL_DEFAULT_ID,
{
}

} // verus!
