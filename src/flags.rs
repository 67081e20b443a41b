//! The two flag bytes carried by the status topic.
use vstd::prelude::*;

verus! {

/// Every bit that names an error flag; bit 2 is reserved.
pub const ERROR_FLAGS_ALL: u8 = 0xFB;

/// Every bit that names a limit flag.
pub const LIMIT_FLAGS_ALL: u8 = 0xFF;

/// Error status flags, held as a byte with the reserved bit always clear.
#[derive(Clone, Copy, Debug, PartialEq, Eq, Structural)]
pub struct ErrorFlags {
    bits: u8,
}

impl View for ErrorFlags {
    type V = u8;

    closed spec fn view(&self) -> u8 {
        self.bits
    }
}

impl ErrorFlags {
    pub const HW_OVERVOLTAGE: u8 = 1 << 0;
    pub const HW_OVERCURRENT: u8 = 1 << 1;
    pub const UNDERVOLTAGE_12V: u8 = 1 << 3;
    pub const BATTERY_FULL: u8 = 1 << 4;
    pub const BATTERY_LOW: u8 = 1 << 5;
    pub const MOSFET_OVERHEAT: u8 = 1 << 6;
    pub const LOW_ARRAY_POWER: u8 = 1 << 7;

    /// The flag set of a raw byte, with the bits that name no flag dropped.
    pub closed spec fn spec_from_bits_truncate(bits: u8) -> ErrorFlags {
        ErrorFlags { bits: bits & ERROR_FLAGS_ALL }
    }

    /// What a truncated flag set holds.
    pub proof fn lemma_from_bits_truncate(bits: u8)
        ensures
            Self::spec_from_bits_truncate(bits)@ == bits & ERROR_FLAGS_ALL,
    {
    }

    /// The flag set of a raw byte, with the bits that name no flag dropped.
    pub fn from_bits_truncate(bits: u8) -> (r: ErrorFlags)
        ensures
            r == Self::spec_from_bits_truncate(bits),
            r@ == bits & ERROR_FLAGS_ALL,
    {
        ErrorFlags { bits: bits & ERROR_FLAGS_ALL }
    }

    /// The raw byte of this flag set.
    pub fn bits(&self) -> (r: u8)
        ensures
            r == self@,
    {
        self.bits
    }

    /// Whether every flag of `mask` is set.
    pub fn contains(&self, mask: u8) -> (r: bool)
        ensures
            r == (self@ & mask == mask),
    {
        self.bits & mask == mask
    }
}

/// Limit status flags, held as a byte.
#[derive(Clone, Copy, Debug, PartialEq, Eq, Structural)]
pub struct LimitFlags {
    bits: u8,
}

impl View for LimitFlags {
    type V = u8;

    closed spec fn view(&self) -> u8 {
        self.bits
    }
}

impl LimitFlags {
    pub const GLOBAL_MPPT: u8 = 1 << 0;
    pub const LOCAL_MPPT: u8 = 1 << 1;
    pub const DUTY_CYCLE_MAX: u8 = 1 << 2;
    pub const DUTY_CYCLE_MIN: u8 = 1 << 3;
    pub const MOSFET_TEMPERATURE: u8 = 1 << 4;
    pub const OUTPUT_VOLTAGE_MAX: u8 = 1 << 5;
    pub const INPUT_CURRENT_MAX: u8 = 1 << 6;
    pub const INPUT_CURRENT_MIN: u8 = 1 << 7;

    /// The flag set of a raw byte, with the bits that name no flag dropped.
    pub closed spec fn spec_from_bits_truncate(bits: u8) -> LimitFlags {
        LimitFlags { bits: bits & LIMIT_FLAGS_ALL }
    }

    /// What a truncated flag set holds.
    pub proof fn lemma_from_bits_truncate(bits: u8)
        ensures
            Self::spec_from_bits_truncate(bits)@ == bits & LIMIT_FLAGS_ALL,
    {
    }

    /// The flag set of a raw byte, with the bits that name no flag dropped.
    pub fn from_bits_truncate(bits: u8) -> (r: LimitFlags)
        ensures
            r == Self::spec_from_bits_truncate(bits),
            r@ == bits & LIMIT_FLAGS_ALL,
    {
        LimitFlags { bits: bits & LIMIT_FLAGS_ALL }
    }

    /// The raw byte of this flag set.
    pub fn bits(&self) -> (r: u8)
        ensures
            r == self@,
    {
        self.bits
    }

    /// Whether every flag of `mask` is set.
    pub fn contains(&self, mask: u8) -> (r: bool)
        ensures
            r == (self@ & mask == mask),
    {
        self.bits & mask == mask
    }
}

} // verus!
