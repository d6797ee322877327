use vstd::prelude::*;

use crate::error::{InvalidRequest, ResponseParseError};

verus! {

/// Wire pattern of a coil that is on.
pub const COIL_ON: u16 = 0xFF00;

/// Wire pattern of a coil that is off.
pub const COIL_OFF: u16 = 0x0000;

/// Largest number of 16-bit registers one request may address.
pub const MAX_REGISTERS: u16 = 125;

/// Largest number of single-bit items one request may address.
pub const MAX_BINARY_BITS: u16 = 2000;

/// Unit address used when no particular unit is configured.
pub const DEFAULT_UNIT_ID: u8 = 0xFF;

/// The address of a device on the bus.
#[derive(Clone, Copy, Debug, PartialEq, Eq, PartialOrd, Structural)]
pub struct UnitId {
    id: u8,
}

impl UnitId {
    pub closed spec fn view(self) -> u8 {
        self.id
    }

    pub fn new(unit_id: u8) -> (r: Self)
        ensures
            r@ == unit_id,
    {
        UnitId { id: unit_id }
    }

    pub fn default() -> (r: Self)
        ensures
            r@ == DEFAULT_UNIT_ID,
    {
        UnitId { id: DEFAULT_UNIT_ID }
    }

    pub fn value(&self) -> (r: u8)
        ensures
            r == self@,
    {
        self.id
    }
}

/// What validating `count` items from `start` against a ceiling of
/// `max_count` gives: the first rule broken, in the order zero count,
/// address overflow, too many items.
pub open spec fn range_check(start: u16, count: u16, max_count: u16) -> Result<(), InvalidRequest> {
    if count == 0 {
        Err(InvalidRequest::CountOfZero)
    } else if start + count - 1 > u16::MAX {
        Err(InvalidRequest::AddressOverflow(start, count))
    } else if count > max_count {
        Err(InvalidRequest::CountTooBigForType(count, max_count))
    } else {
        Ok(())
    }
}

/// A contiguous span of `count` items starting at address `start`.
#[derive(Clone, Copy, Debug, PartialEq, Eq, Structural)]
pub struct AddressRange {
    pub start: u16,
    pub count: u16,
}

impl AddressRange {
    pub open spec fn check_spec(self, max_count: u16) -> Result<(), InvalidRequest> {
        range_check(self.start, self.count, max_count)
    }

    pub fn new(start: u16, count: u16) -> (r: Self)
        ensures
            r.start == start,
            r.count == count,
    {
        AddressRange { start, count }
    }

    fn check_validity(&self, max_count: u16) -> (r: Result<(), InvalidRequest>)
        ensures
            r == self.check_spec(max_count),
    {
        if self.count == 0 {
            return Err(InvalidRequest::CountOfZero);
        }
        // widened so that the sum cannot wrap
        let last_address: u32 = (self.start as u32) + (self.count as u32 - 1);
        if last_address > (u16::MAX as u32) {
            return Err(InvalidRequest::AddressOverflow(self.start, self.count));
        }
        if self.count > max_count {
            return Err(InvalidRequest::CountTooBigForType(self.count, max_count));
        }
        Ok(())
    }

    pub fn check_validity_for_bits(&self) -> (r: Result<(), InvalidRequest>)
        ensures
            r == self.check_spec(MAX_BINARY_BITS),
    {
        self.check_validity(MAX_BINARY_BITS)
    }

    pub fn check_validity_for_registers(&self) -> (r: Result<(), InvalidRequest>)
        ensures
            r == self.check_spec(MAX_REGISTERS),
    {
        self.check_validity(MAX_REGISTERS)
    }
}

/// The state of a single coil.
#[derive(Clone, Copy, Debug, PartialEq, Eq, Structural)]
pub enum CoilState {
    On,
    Off,
}

impl CoilState {
    /// The wire pattern of a state.
    pub open spec fn wire(self) -> u16 {
        match self {
            CoilState::On => COIL_ON,
            CoilState::Off => COIL_OFF,
        }
    }

    /// What decoding a wire value gives.
    pub open spec fn decode(value: u16) -> Result<CoilState, ResponseParseError> {
        if value == COIL_ON {
            Ok(CoilState::On)
        } else if value == COIL_OFF {
            Ok(CoilState::Off)
        } else {
            Err(ResponseParseError::UnknownCoilState(value))
        }
    }

    pub fn from_bool(value: bool) -> (r: Self)
        ensures
            r == (if value { CoilState::On } else { CoilState::Off }),
    {
        if value {
            CoilState::On
        } else {
            CoilState::Off
        }
    }

    pub fn from_u16(value: u16) -> (r: Result<Self, ResponseParseError>)
        ensures
            r == Self::decode(value),
    {
        if value == COIL_ON {
            Ok(CoilState::On)
        } else if value == COIL_OFF {
            Ok(CoilState::Off)
        } else {
            Err(ResponseParseError::UnknownCoilState(value))
        }
    }

    pub fn to_u16(&self) -> (r: u16)
        ensures
            r == self.wire(),
    {
        match self {
            CoilState::On => COIL_ON,
            CoilState::Off => COIL_OFF,
        }
    }
}

/// A 16-bit register value.
#[derive(Clone, Copy, Debug, PartialEq, Eq, Structural)]
pub struct RegisterValue {
    pub value: u16,
}

impl RegisterValue {
    pub fn new(value: u16) -> (r: Self)
        ensures
            r.value == value,
    {
        RegisterValue { value }
    }
}

/// A value bound to the address it was read from or is written to.
#[derive(Clone, Copy, Debug, PartialEq, Eq)]
pub struct Indexed<T> {
    pub index: u16,
    pub value: T,
}

impl<T> Indexed<T> {
    pub fn new(index: u16, value: T) -> (r: Self)
        ensures
            r.index == index,
            r.value == value,
    {
        Indexed { index, value }
    }
}

/// Every range of one to `MAX_REGISTERS` items that stays inside the 16-bit
/// address space passes register validation, and every such range of one to
/// `MAX_BINARY_BITS` items passes bit validation.
pub proof fn lemma_in_bounds_ranges_pass(range: AddressRange)
    requires
        range.count >= 1,
        range.start + range.count - 1 <= u16::MAX,
    ensures
        range.count <= MAX_REGISTERS ==> range.check_spec(MAX_REGISTERS) == Ok::<(), InvalidRequest>(()),
        range.count <= MAX_BINARY_BITS ==> range.check_spec(MAX_BINARY_BITS) == Ok::<(), InvalidRequest>(()),
{
}

/// A range of zero items is refused with `CountOfZero`, whatever its start and
/// whatever the ceiling.
pub proof fn lemma_zero_count_refused(range: AddressRange, max_count: u16)
    requires
        range.count == 0,
    ensures
        range.check_spec(max_count) == Err::<(), InvalidRequest>(InvalidRequest::CountOfZero),
{
}

/// Encoding a coil state and decoding the result gives the state back, and
/// the two states have the wire patterns `COIL_ON` and `COIL_OFF`.
pub proof fn lemma_coil_round_trip(state: CoilState)
    ensures
        CoilState::decode(state.wire()) == Ok::<CoilState, ResponseParseError>(state),
        state == CoilState::On ==> state.wire() == COIL_ON,
        state == CoilState::Off ==> state.wire() == COIL_OFF,
{
}

/// Every wire value other than the two defined patterns fails to decode, and
/// the error carries that value.
pub proof fn lemma_unknown_coil_values_refused(value: u16)
    requires
        value != COIL_ON,
        value != COIL_OFF,
    ensures
        CoilState::decode(value) == Err::<CoilState, ResponseParseError>(
            ResponseParseError::UnknownCoilState(value),
        ),
{
}

} // verus!
