//! The 16-bit frames of the serial register link.
//!
//! A frame carries, from the most significant bit down: one direction bit,
//! a four-bit register address and an eleven-bit payload.

use vstd::prelude::*;

verus! {

/// Largest payload a frame can carry.
pub const PAYLOAD_MAX: u16 = 0x7FF;

/// Whether a frame asks the chip for a register or stores into one.
#[derive(Clone, Copy, Debug, PartialEq, Eq, Structural)]
pub enum Direction {
    Write,
    Read,
}

/// The configuration and status words inside the chip.
#[derive(Clone, Copy, Debug, PartialEq, Eq, Structural)]
pub enum Register {
    /// Fault status 1.
    Fsr1,
    /// Fault status 2.
    Fsr2,
    /// Drive control.
    Dcr,
    /// Gate drive, high side.
    Hsr,
    /// Gate drive, low side.
    Lsr,
    /// Overcurrent protection control.
    Ocpcr,
    /// Current-sense amplifier control.
    Csacr,
}

impl Direction {
    /// The value of the direction bit: 1 for a read, 0 for a write.
    pub open spec fn spec_bit(self) -> int {
        match self {
            Direction::Write => 0,
            Direction::Read => 1,
        }
    }

    /// The value of the direction bit.
    pub fn bit(self) -> (b: u16)
        ensures
            b == self.spec_bit(),
    {
        match self {
            Direction::Write => 0,
            Direction::Read => 1,
        }
    }
}

impl Register {
    /// The address of the register inside the chip.
    pub open spec fn spec_address(self) -> int {
        match self {
            Register::Fsr1 => 0,
            Register::Fsr2 => 1,
            Register::Dcr => 2,
            Register::Hsr => 3,
            Register::Lsr => 4,
            Register::Ocpcr => 5,
            Register::Csacr => 6,
        }
    }

    /// The register that lives at `address`, if there is one.
    pub open spec fn spec_from_address(address: int) -> Option<Register> {
        if address == 0 {
            Some(Register::Fsr1)
        } else if address == 1 {
            Some(Register::Fsr2)
        } else if address == 2 {
            Some(Register::Dcr)
        } else if address == 3 {
            Some(Register::Hsr)
        } else if address == 4 {
            Some(Register::Lsr)
        } else if address == 5 {
            Some(Register::Ocpcr)
        } else if address == 6 {
            Some(Register::Csacr)
        } else {
            None
        }
    }

    /// The address of the register inside the chip.
    pub fn address(self) -> (a: u16)
        ensures
            a == self.spec_address(),
            Register::spec_from_address(a as int) == Some(self),
    {
        match self {
            Register::Fsr1 => 0,
            Register::Fsr2 => 1,
            Register::Dcr => 2,
            Register::Hsr => 3,
            Register::Lsr => 4,
            Register::Ocpcr => 5,
            Register::Csacr => 6,
        }
    }

    /// The register that lives at `address`; `None` above 6.
    pub fn from_address(address: u16) -> (r: Option<Register>)
        ensures
            r == Register::spec_from_address(address as int),
            r matches Some(reg) ==> reg.spec_address() == address,
            r is Some <==> address <= 6,
    {
        match address {
            0 => Some(Register::Fsr1),
            1 => Some(Register::Fsr2),
            2 => Some(Register::Dcr),
            3 => Some(Register::Hsr),
            4 => Some(Register::Lsr),
            5 => Some(Register::Ocpcr),
            6 => Some(Register::Csacr),
            _ => None,
        }
    }
}

/// The frame as a number: the direction bit weighs 2^15, the address 2^11,
/// and the payload is cut to its low eleven bits.
pub open spec fn spec_encode(direction: Direction, register: Register, payload: u16) -> int {
    32768 * direction.spec_bit() + 2048 * register.spec_address() + (payload as int) % 2048
}

/// The payload of a frame: its low eleven bits.
pub open spec fn spec_decode(frame: u16) -> int {
    (frame as int) % 2048
}

/// The address field of a frame: bits 14 to 11.
pub open spec fn spec_frame_address(frame: u16) -> int {
    ((frame as int) / 2048) % 16
}

/// The direction of a frame: bit 15.
pub open spec fn spec_frame_direction(frame: u16) -> Direction {
    if (frame as int) / 32768 == 1 {
        Direction::Read
    } else {
        Direction::Write
    }
}

/// Packs a direction, a register and a payload into one frame. A payload wider
/// than eleven bits loses its high bits, so that it can never reach the address
/// or the direction.
pub fn encode(direction: Direction, register: Register, payload: u16) -> (frame: u16)
    ensures
        frame == spec_encode(direction, register, payload),
{
    let d: u16 = direction.bit();
    let a: u16 = register.address();
    assert(((d << 15) | (a << 11) | (payload & 0x7FF)) == 32768 * d + 2048 * a + payload % 2048)
        by (bit_vector)
        requires
            d <= 1,
            a <= 6,
    ;
    (d << 15) | (a << 11) | (payload & PAYLOAD_MAX)
}

/// The payload that a frame carries.
pub fn decode(frame: u16) -> (payload: u16)
    ensures
        payload == spec_decode(frame),
        payload <= PAYLOAD_MAX,
{
    assert(frame & 0x7FF == frame % 2048) by (bit_vector);
    frame & PAYLOAD_MAX
}

/// The register that a frame addresses; `None` where the address field names
/// no register of the chip.
pub fn frame_register(frame: u16) -> (r: Option<Register>)
    ensures
        r == Register::spec_from_address(spec_frame_address(frame)),
{
    assert((frame >> 11) & 0xF == (frame / 2048) % 16) by (bit_vector);
    Register::from_address((frame >> 11) & 0xF)
}

/// The direction that a frame carries.
pub fn frame_direction(frame: u16) -> (d: Direction)
    ensures
        d == spec_frame_direction(frame),
{
    assert(frame >> 15 == frame / 32768) by (bit_vector);
    assert(frame >> 15 <= 1) by (bit_vector);
    if frame >> 15 == 1 {
        Direction::Read
    } else {
        Direction::Write
    }
}

/// Round trip: whatever the direction and the register, a frame gives back the
/// payload it was built from (cut to eleven bits; unchanged when it fits),
/// the register and the direction.
pub proof fn lemma_round_trip(direction: Direction, register: Register, payload: u16)
    ensures
        0 <= spec_encode(direction, register, payload) <= u16::MAX,
        spec_decode(spec_encode(direction, register, payload) as u16) == payload % 2048,
        payload <= PAYLOAD_MAX ==> spec_decode(spec_encode(direction, register, payload) as u16)
            == payload,
        Register::spec_from_address(
            spec_frame_address(spec_encode(direction, register, payload) as u16),
        ) == Some(register),
        spec_frame_direction(spec_encode(direction, register, payload) as u16) == direction,
{
}

} // verus!
