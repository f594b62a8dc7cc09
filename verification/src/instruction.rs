//! Decoding the wire-format command buffer into a typed operation.

use vstd::bytes::{spec_u64_from_le_bytes, u64_from_le_bytes};
use vstd::prelude::*;

use crate::error::{LVMError, ProcessError};

verus! {

/// A decoded operation: byte 0 of the command buffer is a tag selecting the
/// variant, and each unsigned 64-bit operand sits at a fixed little-endian
/// offset in the remainder of the buffer.
#[derive(Clone, Copy, Debug, PartialEq, Eq, Structural)]
pub enum LVMInstruction {
    /// Register a piece of media (tag 0): operands at offsets 0..8 and 8..16
    /// of the remainder.
    ///
    /// Accounts: `[signer]` author, `[]` token account owned by the token
    /// program, `[writable]` media storage account, `[]` token program.
    CreateMedia {
        /// The price per minute of access, in token base units.
        price_per_minute: u64,
        /// The sales percentage fee (0..=100) given to the distributor.
        distributor_fee: u64,
    },
    /// Purchase a block of access minutes (tag 1): operand at offset 0..8 of
    /// the remainder.
    ///
    /// Accounts: `[signer]` payer, `[signer]` buyer, `[writable]` access-time
    /// storage account, `[]` media storage account, `[writable]` author token
    /// account, `[writable]` distributor token account, `[writable]` buyer
    /// token account, `[]` token program.
    PurchaseAccessTime {
        /// Total time in minutes to purchase.
        time_in_minute: u64,
    },
    /// Report consumed access time (tag 2): operand at offset 0..8 of the
    /// remainder.
    ///
    /// Accounts: `[signer]` payer, `[writable]` access-time storage account.
    UpdateAccessTime {
        /// Cumulative minutes spent.
        access_time: u64,
    },
}

/// The operation described by a raw command buffer, or `None` when the buffer
/// is empty, too short for the expected operands, or the tag is unrecognized.
pub open spec fn spec_unpack_instruction(s: Seq<u8>) -> Option<LVMInstruction> {
    if s.len() < 1 {
        None
    } else if s[0] == 0 {
        if s.len() >= 17 {
            Some(
                LVMInstruction::CreateMedia {
                    price_per_minute: spec_u64_from_le_bytes(s.subrange(1, 9)),
                    distributor_fee: spec_u64_from_le_bytes(s.subrange(9, 17)),
                },
            )
        } else {
            None
        }
    } else if s[0] == 1 {
        if s.len() >= 9 {
            Some(
                LVMInstruction::PurchaseAccessTime {
                    time_in_minute: spec_u64_from_le_bytes(s.subrange(1, 9)),
                },
            )
        } else {
            None
        }
    } else if s[0] == 2 {
        if s.len() >= 9 {
            Some(
                LVMInstruction::UpdateAccessTime {
                    access_time: spec_u64_from_le_bytes(s.subrange(1, 9)),
                },
            )
        } else {
            None
        }
    } else {
        None
    }
}

impl LVMInstruction {
    /// Unpacks a byte buffer into an [`LVMInstruction`], failing with
    /// `InvalidInstruction` exactly when the buffer describes no operation.
    pub fn unpack(input: &[u8]) -> (r: Result<LVMInstruction, ProcessError>)
        ensures
            match spec_unpack_instruction(input@) {
                Some(instruction) => r == Ok::<LVMInstruction, ProcessError>(instruction),
                None => r == Err::<LVMInstruction, ProcessError>(
                    ProcessError::Lvm(LVMError::InvalidInstruction),
                ),
            },
    {
        if input.len() == 0 {
            return Err(ProcessError::Lvm(LVMError::InvalidInstruction));
        }
        let tag = input[0];
        let rest = &input[1..input.len()];
        proof {
            assert(rest@ == input@.subrange(1, input@.len() as int));
        }
        match tag {
            0 => {
                let price_per_minute = match Self::unpack_integer(rest, &1) {
                    Ok(v) => v,
                    Err(e) => {
                        return Err(e);
                    },
                };
                let distributor_fee = match Self::unpack_integer(rest, &2) {
                    Ok(v) => v,
                    Err(e) => {
                        return Err(e);
                    },
                };
                proof {
                    assert(rest@.subrange(0, 8) =~= input@.subrange(1, 9));
                    assert(rest@.subrange(8, 16) =~= input@.subrange(9, 17));
                }
                Ok(LVMInstruction::CreateMedia { price_per_minute, distributor_fee })
            },
            1 => {
                let time_in_minute = match Self::unpack_integer(rest, &1) {
                    Ok(v) => v,
                    Err(e) => {
                        return Err(e);
                    },
                };
                proof {
                    assert(rest@.subrange(0, 8) =~= input@.subrange(1, 9));
                }
                Ok(LVMInstruction::PurchaseAccessTime { time_in_minute })
            },
            2 => {
                let access_time = match Self::unpack_integer(rest, &1) {
                    Ok(v) => v,
                    Err(e) => {
                        return Err(e);
                    },
                };
                proof {
                    assert(rest@.subrange(0, 8) =~= input@.subrange(1, 9));
                }
                Ok(LVMInstruction::UpdateAccessTime { access_time })
            },
            _ => Err(ProcessError::Lvm(LVMError::InvalidInstruction)),
        }
    }

    /// Reads the operand at a fixed position of the buffer remainder:
    /// position 1 is bytes 0..8, position 2 is bytes 8..16, little-endian.
    fn unpack_integer(input: &[u8], position: &u32) -> (r: Result<u64, ProcessError>)
        ensures
            *position == 1 && input@.len() >= 8 ==> r == Ok::<u64, ProcessError>(
                spec_u64_from_le_bytes(input@.subrange(0, 8)),
            ),
            *position == 2 && input@.len() >= 16 ==> r == Ok::<u64, ProcessError>(
                spec_u64_from_le_bytes(input@.subrange(8, 16)),
            ),
            !(*position == 1 && input@.len() >= 8) && !(*position == 2 && input@.len() >= 16)
                ==> r == Err::<u64, ProcessError>(ProcessError::Lvm(LVMError::InvalidInstruction)),
    {
        if *position == 1 {
            if input.len() >= 8 {
                Ok(u64_from_le_bytes(&input[0..8]))
            } else {
                Err(ProcessError::Lvm(LVMError::InvalidInstruction))
            }
        } else if *position == 2 {
            if input.len() >= 16 {
                Ok(u64_from_le_bytes(&input[8..16]))
            } else {
                Err(ProcessError::Lvm(LVMError::InvalidInstruction))
            }
        } else {
            Err(ProcessError::Lvm(LVMError::InvalidInstruction))
        }
    }
}

} // verus!
