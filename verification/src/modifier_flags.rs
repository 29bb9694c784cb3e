//! Flags that indicate which modifier keys are in the mix for an event.
//!
//! Primitive flags are encoded in two tiers: each sided key (left/right
//! shift, control, option, command) sets a shared side-independent base bit
//! plus a side-distinguishing low bit of its own. Composite flags are the
//! bitwise union of primitives, so testing a composite with the
//! all-bits-present containment predicate requires both sides, while a
//! single side is recognisable on its own. The concrete bit positions match
//! the host platform's native modifier-flag encoding and must not be
//! re-invented.
//!
//! [`EventModifierBitFlag`] names the flags; [`ModifierBitFlag`] is the set
//! type that wraps any raw 64-bit pattern, named or not.

use vstd::prelude::*;
use crate::bitops::flags_contain;

verus! {

pub const CAPS_LOCK: u64 = 1u64 << 16;
pub const LEFT_SHIFT: u64 = (1u64 << 17) | (1u64 << 1);
pub const RIGHT_SHIFT: u64 = (1u64 << 17) | (1u64 << 2);
pub const LEFT_CONTROL: u64 = (1u64 << 18) | (1u64 << 0);
pub const RIGHT_CONTROL: u64 = (1u64 << 18) | (1u64 << 13);
pub const LEFT_OPTION: u64 = (1u64 << 19) | (1u64 << 5);
pub const RIGHT_OPTION: u64 = (1u64 << 19) | (1u64 << 6);
pub const LEFT_COMMAND: u64 = (1u64 << 20) | (1u64 << 3);
pub const RIGHT_COMMAND: u64 = (1u64 << 20) | (1u64 << 4);
pub const SHIFT: u64 = LEFT_SHIFT | RIGHT_SHIFT;
pub const CONTROL: u64 = LEFT_CONTROL | RIGHT_CONTROL;
pub const OPTION: u64 = LEFT_OPTION | RIGHT_OPTION;
pub const COMMAND: u64 = LEFT_COMMAND | RIGHT_COMMAND;
pub const LEFT_MODI: u64 = LEFT_SHIFT | LEFT_CONTROL | LEFT_OPTION | LEFT_COMMAND;
pub const RIGHT_MODI: u64 = RIGHT_SHIFT | RIGHT_CONTROL | RIGHT_OPTION | RIGHT_COMMAND;
pub const LR_MODI: u64 = LEFT_MODI | RIGHT_MODI;
pub const NUMPAD: u64 = 1u64 << 21;
pub const HELP: u64 = 1u64 << 22;
pub const FUNCTION: u64 = 1u64 << 23;
pub const DEVICE_INDEPENDENT_FLAGS_MASK: u64 = 0xffff0000;

/// A composite flag contains each of its side primitives: the paired test
/// is at least as demanding as either single-side test.
pub proof fn lemma_composite_contains_sides()
    ensures
        flags_contain(SHIFT, LEFT_SHIFT),
        flags_contain(SHIFT, RIGHT_SHIFT),
        flags_contain(CONTROL, LEFT_CONTROL),
        flags_contain(CONTROL, RIGHT_CONTROL),
        flags_contain(OPTION, LEFT_OPTION),
        flags_contain(OPTION, RIGHT_OPTION),
        flags_contain(COMMAND, LEFT_COMMAND),
        flags_contain(COMMAND, RIGHT_COMMAND),
{
    assert(flags_contain(SHIFT, LEFT_SHIFT) && flags_contain(SHIFT, RIGHT_SHIFT)
        && flags_contain(CONTROL, LEFT_CONTROL) && flags_contain(CONTROL, RIGHT_CONTROL)
        && flags_contain(OPTION, LEFT_OPTION) && flags_contain(OPTION, RIGHT_OPTION)
        && flags_contain(COMMAND, LEFT_COMMAND) && flags_contain(COMMAND, RIGHT_COMMAND))
        by (bit_vector);
}

/// A single side primitive never satisfies its composite's test on its
/// own: the composite requires both sides.
pub proof fn lemma_side_lacks_composite()
    ensures
        !flags_contain(LEFT_SHIFT, SHIFT),
        !flags_contain(RIGHT_SHIFT, SHIFT),
        !flags_contain(LEFT_CONTROL, CONTROL),
        !flags_contain(RIGHT_CONTROL, CONTROL),
        !flags_contain(LEFT_OPTION, OPTION),
        !flags_contain(RIGHT_OPTION, OPTION),
        !flags_contain(LEFT_COMMAND, COMMAND),
        !flags_contain(RIGHT_COMMAND, COMMAND),
{
    assert(!flags_contain(LEFT_SHIFT, SHIFT) && !flags_contain(RIGHT_SHIFT, SHIFT)
        && !flags_contain(LEFT_CONTROL, CONTROL) && !flags_contain(RIGHT_CONTROL, CONTROL)
        && !flags_contain(LEFT_OPTION, OPTION) && !flags_contain(RIGHT_OPTION, OPTION)
        && !flags_contain(LEFT_COMMAND, COMMAND) && !flags_contain(RIGHT_COMMAND, COMMAND))
        by (bit_vector);
}

/// A value holding both side primitives of a family also satisfies the
/// composite test: under this encoding the paired branch and the
/// single-side branches of the renderer are mutually exclusive.
pub proof fn lemma_both_sides_imply_composite(bits: u64)
    ensures
        flags_contain(bits, LEFT_SHIFT) && flags_contain(bits, RIGHT_SHIFT) ==> flags_contain(
            bits,
            SHIFT,
        ),
        flags_contain(bits, LEFT_CONTROL) && flags_contain(bits, RIGHT_CONTROL) ==> flags_contain(
            bits,
            CONTROL,
        ),
        flags_contain(bits, LEFT_OPTION) && flags_contain(bits, RIGHT_OPTION) ==> flags_contain(
            bits,
            OPTION,
        ),
        flags_contain(bits, LEFT_COMMAND) && flags_contain(bits, RIGHT_COMMAND) ==> flags_contain(
            bits,
            COMMAND,
        ),
{
    assert((flags_contain(bits, LEFT_SHIFT) && flags_contain(bits, RIGHT_SHIFT) ==> flags_contain(
        bits,
        SHIFT,
    )) && (flags_contain(bits, LEFT_CONTROL) && flags_contain(bits, RIGHT_CONTROL)
        ==> flags_contain(bits, CONTROL)) && (flags_contain(bits, LEFT_OPTION) && flags_contain(
        bits,
        RIGHT_OPTION,
    ) ==> flags_contain(bits, OPTION)) && (flags_contain(bits, LEFT_COMMAND) && flags_contain(
        bits,
        RIGHT_COMMAND,
    ) ==> flags_contain(bits, COMMAND))) by (bit_vector);
}

/// The coarse, side-agnostic modifier names, each mapping to the base bits
/// the host platform assigns it.
#[derive(Clone, Copy, Debug)]
pub enum EventModifierFlag {
    CapsLock,
    Control,
    Option,
    Command,
    DeviceIndependentFlagsMask,
}

/// The raw bits a coarse modifier name stands for.
pub open spec fn modifier_flag_bits(flag: EventModifierFlag) -> u64 {
    match flag {
        EventModifierFlag::CapsLock => 1u64 << 16,
        EventModifierFlag::Control => 1u64 << 18,
        EventModifierFlag::Option => 1u64 << 19,
        EventModifierFlag::Command => 1u64 << 20,
        EventModifierFlag::DeviceIndependentFlagsMask => 0xffff0000,
    }
}

impl EventModifierFlag {
    /// The raw bit field this modifier name stands for.
    pub fn bits(self) -> (r: u64)
        ensures
            r == modifier_flag_bits(self),
    {
        match self {
            EventModifierFlag::CapsLock => 1u64 << 16,
            EventModifierFlag::Control => 1u64 << 18,
            EventModifierFlag::Option => 1u64 << 19,
            EventModifierFlag::Command => 1u64 << 20,
            EventModifierFlag::DeviceIndependentFlagsMask => 0xffff0000,
        }
    }
}

/// The named modifier flags. The sided keys and caps lock, numpad, help,
/// function and the device-independent mask are primitives; `Shift`
/// through `Command` and the `Modi` names are composites, the unions of
/// their primitives' bit patterns.
#[derive(Clone, Copy, Debug, PartialEq, Eq, Structural)]
pub enum EventModifierBitFlag {
    CapsLock,
    LeftShift,
    RightShift,
    LeftControl,
    RightControl,
    LeftOption,
    RightOption,
    LeftCommand,
    RightCommand,
    Shift,
    Control,
    Option,
    Command,
    LeftModi,
    RightModi,
    LRModi,
    Numpad,
    Help,
    Function,
    DeviceIndependentFlagsMask,
}

/// The fixed bit pattern of a named modifier flag.
pub open spec fn modifier_bit_flag_bits(flag: EventModifierBitFlag) -> u64 {
    match flag {
        EventModifierBitFlag::CapsLock => CAPS_LOCK,
        EventModifierBitFlag::LeftShift => LEFT_SHIFT,
        EventModifierBitFlag::RightShift => RIGHT_SHIFT,
        EventModifierBitFlag::LeftControl => LEFT_CONTROL,
        EventModifierBitFlag::RightControl => RIGHT_CONTROL,
        EventModifierBitFlag::LeftOption => LEFT_OPTION,
        EventModifierBitFlag::RightOption => RIGHT_OPTION,
        EventModifierBitFlag::LeftCommand => LEFT_COMMAND,
        EventModifierBitFlag::RightCommand => RIGHT_COMMAND,
        EventModifierBitFlag::Shift => SHIFT,
        EventModifierBitFlag::Control => CONTROL,
        EventModifierBitFlag::Option => OPTION,
        EventModifierBitFlag::Command => COMMAND,
        EventModifierBitFlag::LeftModi => LEFT_MODI,
        EventModifierBitFlag::RightModi => RIGHT_MODI,
        EventModifierBitFlag::LRModi => LR_MODI,
        EventModifierBitFlag::Numpad => NUMPAD,
        EventModifierBitFlag::Help => HELP,
        EventModifierBitFlag::Function => FUNCTION,
        EventModifierBitFlag::DeviceIndependentFlagsMask => DEVICE_INDEPENDENT_FLAGS_MASK,
    }
}

impl EventModifierBitFlag {
    /// The raw bit pattern of this named flag.
    pub fn bits(self) -> (r: u64)
        ensures
            r == modifier_bit_flag_bits(self),
    {
        match self {
            EventModifierBitFlag::CapsLock => CAPS_LOCK,
            EventModifierBitFlag::LeftShift => LEFT_SHIFT,
            EventModifierBitFlag::RightShift => RIGHT_SHIFT,
            EventModifierBitFlag::LeftControl => LEFT_CONTROL,
            EventModifierBitFlag::RightControl => RIGHT_CONTROL,
            EventModifierBitFlag::LeftOption => LEFT_OPTION,
            EventModifierBitFlag::RightOption => RIGHT_OPTION,
            EventModifierBitFlag::LeftCommand => LEFT_COMMAND,
            EventModifierBitFlag::RightCommand => RIGHT_COMMAND,
            EventModifierBitFlag::Shift => SHIFT,
            EventModifierBitFlag::Control => CONTROL,
            EventModifierBitFlag::Option => OPTION,
            EventModifierBitFlag::Command => COMMAND,
            EventModifierBitFlag::LeftModi => LEFT_MODI,
            EventModifierBitFlag::RightModi => RIGHT_MODI,
            EventModifierBitFlag::LRModi => LR_MODI,
            EventModifierBitFlag::Numpad => NUMPAD,
            EventModifierBitFlag::Help => HELP,
            EventModifierBitFlag::Function => FUNCTION,
            EventModifierBitFlag::DeviceIndependentFlagsMask => DEVICE_INDEPENDENT_FLAGS_MASK,
        }
    }

    /// This named flag as a one-flag set value.
    pub fn value(self) -> (r: ModifierBitFlag)
        ensures
            r.bits == modifier_bit_flag_bits(self),
    {
        ModifierBitFlag { bits: self.bits() }
    }

    /// True when every bit of `other`'s pattern is in this flag's pattern.
    /// A composite contains each of its sides; neither side contains the
    /// composite.
    pub fn contains(self, other: EventModifierBitFlag) -> (r: bool)
        ensures
            r == flags_contain(modifier_bit_flag_bits(self), modifier_bit_flag_bits(other)),
    {
        self.value().contains(other.value())
    }

    /// The set holding both named flags.
    pub fn union(self, other: EventModifierBitFlag) -> (r: ModifierBitFlag)
        ensures
            r.bits == modifier_bit_flag_bits(self) | modifier_bit_flag_bits(other),
    {
        self.value().union(other.value())
    }
}

/// A set of modifier-key flags over a 64-bit domain, wrapping any raw bit
/// pattern losslessly.
#[derive(Clone, Copy, Debug, PartialEq, Eq, Structural)]
pub struct ModifierBitFlag {
    pub bits: u64,
}

impl ModifierBitFlag {
    /// Wraps a raw bit field, losslessly; unrecognized bits round-trip but
    /// have no name.
    pub fn from_raw(bits: u64) -> (r: ModifierBitFlag)
        ensures
            r.bits == bits,
    {
        ModifierBitFlag { bits }
    }

    /// The raw 64-bit value underneath.
    pub fn bits(&self) -> (r: u64)
        ensures
            r == self.bits,
    {
        self.bits
    }

    /// True when every bit of `other` is set in `self`. Against a composite
    /// flag this requires both sides; against a sided primitive it requires
    /// the shared base bit plus that side's own bit.
    pub fn contains(&self, other: ModifierBitFlag) -> (r: bool)
        ensures
            r == flags_contain(self.bits, other.bits),
    {
        self.bits & other.bits == other.bits
    }

    /// True when this set contains the named flag's whole pattern.
    pub fn contains_flag(&self, flag: EventModifierBitFlag) -> (r: bool)
        ensures
            r == flags_contain(self.bits, modifier_bit_flag_bits(flag)),
    {
        self.contains(flag.value())
    }

    /// The flags of either operand.
    pub fn union(&self, other: ModifierBitFlag) -> (r: ModifierBitFlag)
        ensures
            r.bits == self.bits | other.bits,
    {
        ModifierBitFlag { bits: self.bits | other.bits }
    }

    /// The set with the named flag's pattern added.
    pub fn union_flag(&self, flag: EventModifierBitFlag) -> (r: ModifierBitFlag)
        ensures
            r.bits == self.bits | modifier_bit_flag_bits(flag),
    {
        self.union(flag.value())
    }

    /// The flags common to both operands.
    pub fn intersection(&self, other: ModifierBitFlag) -> (r: ModifierBitFlag)
        ensures
            r.bits == self.bits & other.bits,
    {
        ModifierBitFlag { bits: self.bits & other.bits }
    }

    /// The flags of `self` that `other` lacks.
    pub fn difference(&self, other: ModifierBitFlag) -> (r: ModifierBitFlag)
        ensures
            r.bits == self.bits & !other.bits,
    {
        ModifierBitFlag { bits: self.bits & !other.bits }
    }
}

} // verus!
