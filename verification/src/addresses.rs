//! The base address from which every read of a tick starts.
//!
//! The host finds, within the game's code, an instruction that loads the
//! game's root pointer relative to the instruction that follows it. The base
//! address is what that instruction refers to.

use vstd::prelude::*;
use crate::sampler::offset;

verus! {

/// How many bytes of the instruction precede its operand: the length of the
/// byte pattern by which the host finds the instruction.
pub const OPERAND_OFFSET: u64 = 5;

/// How many bytes the operand takes: the instruction that follows starts
/// right behind it.
pub const OPERAND_SIZE: u64 = 4;

/// The address that lies `by` bytes from `address`, before it where `by` is
/// negative. Addresses wrap at 64 bits.
pub open spec fn displaced(address: u64, by: i32) -> u64 {
    if address + by > u64::MAX {
        (address + by - 0x1_0000_0000_0000_0000) as u64
    } else if address + by < 0 {
        (address + by + 0x1_0000_0000_0000_0000) as u64
    } else {
        (address + by) as u64
    }
}

/// Where the game's root pointer lies, for the operand found at `operand`
/// that holds `displacement`: `displacement` bytes from the end of the
/// operand.
pub open spec fn resolved(operand: u64, displacement: i32) -> u64 {
    displaced(offset(operand, OPERAND_SIZE), displacement)
}

/// The addresses that a tick reads from.
#[derive(Clone, Copy, Debug, PartialEq, Eq, Structural)]
pub struct Addresses {
    /// Where the game's root pointer lies.
    pub base_address: u64,
}

impl Addresses {
    /// Where the operand of the instruction lies that was found at `found`.
    pub fn operand_address(found: u64) -> (operand: u64)
        ensures
            operand == offset(found, OPERAND_OFFSET),
    {
        found.wrapping_add(OPERAND_OFFSET)
    }

    /// The addresses for the operand at `operand` that holds `displacement`.
    pub fn resolve(operand: u64, displacement: i32) -> (addresses: Addresses)
        ensures
            addresses.base_address == resolved(operand, displacement),
    {
        let next = operand.wrapping_add(OPERAND_SIZE);
        Addresses { base_address: next.wrapping_add_signed(displacement as i64) }
    }
}

} // verus!
