//! Rendering of a modifier flag set as a compact symbolic string.
//!
//! Each modifier family contributes its token in a fixed order: caps lock,
//! shift, control, option, command, function, numpad, help. A sided family
//! emits one paired token when both sides are present, else a left-only
//! and/or right-only token. A value containing the device-independent flags
//! mask is rendered as a single mask token, whatever else is set: such a
//! value is a raw capability mask, not a pressed-key combination. Function
//! and numpad swap their glyph in the caller-selected alternate mode, used
//! when they act as modifier keys.

use vstd::prelude::*;
use crate::bitops::flags_contain;
use crate::modifier_flags::CAPS_LOCK;
use crate::modifier_flags::COMMAND;
use crate::modifier_flags::CONTROL;
use crate::modifier_flags::DEVICE_INDEPENDENT_FLAGS_MASK;
use crate::modifier_flags::EventModifierBitFlag;
use crate::modifier_flags::ModifierBitFlag;
use crate::modifier_flags::modifier_bit_flag_bits;
use crate::modifier_flags::FUNCTION;
use crate::modifier_flags::HELP;
use crate::modifier_flags::LEFT_COMMAND;
use crate::modifier_flags::LEFT_CONTROL;
use crate::modifier_flags::LEFT_OPTION;
use crate::modifier_flags::LEFT_SHIFT;
use crate::modifier_flags::NUMPAD;
use crate::modifier_flags::OPTION;
use crate::modifier_flags::RIGHT_COMMAND;
use crate::modifier_flags::RIGHT_CONTROL;
use crate::modifier_flags::RIGHT_OPTION;
use crate::modifier_flags::RIGHT_SHIFT;
use crate::modifier_flags::SHIFT;

verus! {

/// The token a sided modifier family contributes: the paired token when the
/// composite (both sides) is contained, else the left-only token, the
/// right-only token, or nothing, as the sides are present.
pub open spec fn spec_side_tokens(
    bits: u64,
    both: u64,
    left: u64,
    right: u64,
    pair_tok: Seq<char>,
    left_tok: Seq<char>,
    right_tok: Seq<char>,
) -> Seq<char> {
    if flags_contain(bits, both) {
        pair_tok
    } else {
        (if flags_contain(bits, left) {
            left_tok
        } else {
            Seq::empty()
        }) + (if flags_contain(bits, right) {
            right_tok
        } else {
            Seq::empty()
        })
    }
}

/// The full rendering of a raw modifier bit field: the mask token alone if
/// the device-independent flags mask is contained, else the concatenation
/// of every family's token in the fixed family order.
pub open spec fn spec_format(bits: u64, alternate: bool) -> Seq<char> {
    if flags_contain(bits, DEVICE_INDEPENDENT_FLAGS_MASK) {
        "!🖮"@
    } else {
        (if flags_contain(bits, CAPS_LOCK) {
            "⇪"@
        } else {
            Seq::empty()
        }) + spec_side_tokens(bits, SHIFT, LEFT_SHIFT, RIGHT_SHIFT, "‹⇧›"@, "‹⇧"@, "⇧›"@)
            + spec_side_tokens(bits, CONTROL, LEFT_CONTROL, RIGHT_CONTROL, "‹⌃›"@, "‹⌃"@, "⌃›"@)
            + spec_side_tokens(bits, OPTION, LEFT_OPTION, RIGHT_OPTION, "‹⌥›"@, "‹⌥"@, "⌥›"@)
            + spec_side_tokens(bits, COMMAND, LEFT_COMMAND, RIGHT_COMMAND, "‹⌘›"@, "‹⌘"@, "⌘›"@)
            + (if flags_contain(bits, FUNCTION) {
            if alternate {
                "🌐"@
            } else {
                "ƒ"@
            }
        } else {
            Seq::empty()
        }) + (if flags_contain(bits, NUMPAD) {
            if alternate {
                "⇭"@
            } else {
                "🔢"@
            }
        } else {
            Seq::empty()
        }) + (if flags_contain(bits, HELP) {
            "ℹ"@
        } else {
            Seq::empty()
        })
    }
}

impl ModifierBitFlag {
    /// Renders the active modifiers as a compact symbolic string: a pure
    /// function of the flag bits and the alternate switch, never failing,
    /// empty when no named flag is present.
    #[verifier::rlimit(60)]
    pub fn format(&self, alternate: bool) -> (r: String)
        ensures
            r@ == spec_format(self.bits, alternate),
    {
        if self.contains_flag(EventModifierBitFlag::DeviceIndependentFlagsMask) {
            return "!🖮".to_owned();
        }
        let ghost tok_caps = (if flags_contain(self.bits, CAPS_LOCK) {
            "⇪"@
        } else {
            Seq::<char>::empty()
        });
        let ghost tok_shift = spec_side_tokens(
            self.bits,
            SHIFT,
            LEFT_SHIFT,
            RIGHT_SHIFT,
            "‹⇧›"@,
            "‹⇧"@,
            "⇧›"@,
        );
        let ghost tok_control = spec_side_tokens(
            self.bits,
            CONTROL,
            LEFT_CONTROL,
            RIGHT_CONTROL,
            "‹⌃›"@,
            "‹⌃"@,
            "⌃›"@,
        );
        let ghost tok_option = spec_side_tokens(
            self.bits,
            OPTION,
            LEFT_OPTION,
            RIGHT_OPTION,
            "‹⌥›"@,
            "‹⌥"@,
            "⌥›"@,
        );
        let ghost tok_command = spec_side_tokens(
            self.bits,
            COMMAND,
            LEFT_COMMAND,
            RIGHT_COMMAND,
            "‹⌘›"@,
            "‹⌘"@,
            "⌘›"@,
        );
        let ghost tok_function = (if flags_contain(self.bits, FUNCTION) {
            if alternate {
                "🌐"@
            } else {
                "ƒ"@
            }
        } else {
            Seq::<char>::empty()
        });
        let ghost tok_numpad = (if flags_contain(self.bits, NUMPAD) {
            if alternate {
                "⇭"@
            } else {
                "🔢"@
            }
        } else {
            Seq::<char>::empty()
        });
        let ghost tok_help = (if flags_contain(self.bits, HELP) {
            "ℹ"@
        } else {
            Seq::<char>::empty()
        });
        let mut out = String::new();
        if self.contains_flag(EventModifierBitFlag::CapsLock) {
            out.append("⇪");
        }
        assert(out@ =~= tok_caps);
        if self.contains_flag(EventModifierBitFlag::Shift) {
            out.append("‹⇧›");
        } else {
            if self.contains_flag(EventModifierBitFlag::LeftShift) {
                out.append("‹⇧");
            }
            if self.contains_flag(EventModifierBitFlag::RightShift) {
                out.append("⇧›");
            }
        }
        assert(out@ =~= tok_caps + tok_shift);
        if self.contains_flag(EventModifierBitFlag::Control) {
            out.append("‹⌃›");
        } else {
            if self.contains_flag(EventModifierBitFlag::LeftControl) {
                out.append("‹⌃");
            }
            if self.contains_flag(EventModifierBitFlag::RightControl) {
                out.append("⌃›");
            }
        }
        assert(out@ =~= tok_caps + tok_shift + tok_control);
        if self.contains_flag(EventModifierBitFlag::Option) {
            out.append("‹⌥›");
        } else {
            if self.contains_flag(EventModifierBitFlag::LeftOption) {
                out.append("‹⌥");
            }
            if self.contains_flag(EventModifierBitFlag::RightOption) {
                out.append("⌥›");
            }
        }
        assert(out@ =~= tok_caps + tok_shift + tok_control + tok_option);
        if self.contains_flag(EventModifierBitFlag::Command) {
            out.append("‹⌘›");
        } else {
            if self.contains_flag(EventModifierBitFlag::LeftCommand) {
                out.append("‹⌘");
            }
            if self.contains_flag(EventModifierBitFlag::RightCommand) {
                out.append("⌘›");
            }
        }
        assert(out@ =~= tok_caps + tok_shift + tok_control + tok_option + tok_command);
        if self.contains_flag(EventModifierBitFlag::Function) {
            if alternate {
                out.append("🌐");
            } else {
                out.append("ƒ");
            }
        }
        if self.contains_flag(EventModifierBitFlag::Numpad) {
            if alternate {
                out.append("⇭");
            } else {
                out.append("🔢");
            }
        }
        if self.contains_flag(EventModifierBitFlag::Help) {
            out.append("ℹ");
        }
        assert(out@ =~= tok_caps + tok_shift + tok_control + tok_option + tok_command
            + tok_function + tok_numpad + tok_help);
        out
    }
}

impl EventModifierBitFlag {
    /// Renders this one named flag as the set holding it alone would render.
    pub fn format(self, alternate: bool) -> (r: String)
        ensures
            r@ == spec_format(modifier_bit_flag_bits(self), alternate),
    {
        self.value().format(alternate)
    }
}

/// A value that contains the device-independent flags mask renders as the
/// mask token alone, whatever other bits are also set.
pub proof fn lemma_mask_short_circuits(bits: u64, alternate: bool)
    requires
        flags_contain(bits, DEVICE_INDEPENDENT_FLAGS_MASK),
    ensures
        spec_format(bits, alternate) == "!🖮"@,
{
}

/// The alternate mode changes the rendering of the function and numpad
/// keys: each swaps its glyph when it acts as a modifier key.
pub proof fn lemma_alternate_changes_function_and_numpad()
    ensures
        spec_format(FUNCTION, true) != spec_format(FUNCTION, false),
        spec_format(NUMPAD, true) != spec_format(NUMPAD, false),
{
    assert(!flags_contain(FUNCTION, DEVICE_INDEPENDENT_FLAGS_MASK) && !flags_contain(
        FUNCTION,
        CAPS_LOCK,
    ) && !flags_contain(FUNCTION, SHIFT) && !flags_contain(FUNCTION, LEFT_SHIFT)
        && !flags_contain(FUNCTION, RIGHT_SHIFT) && !flags_contain(FUNCTION, CONTROL)
        && !flags_contain(FUNCTION, LEFT_CONTROL) && !flags_contain(FUNCTION, RIGHT_CONTROL)
        && !flags_contain(FUNCTION, OPTION) && !flags_contain(FUNCTION, LEFT_OPTION)
        && !flags_contain(FUNCTION, RIGHT_OPTION) && !flags_contain(FUNCTION, COMMAND)
        && !flags_contain(FUNCTION, LEFT_COMMAND) && !flags_contain(FUNCTION, RIGHT_COMMAND)
        && flags_contain(FUNCTION, FUNCTION) && !flags_contain(FUNCTION, NUMPAD)
        && !flags_contain(FUNCTION, HELP)) by (bit_vector);
    assert(!flags_contain(NUMPAD, DEVICE_INDEPENDENT_FLAGS_MASK) && !flags_contain(
        NUMPAD,
        CAPS_LOCK,
    ) && !flags_contain(NUMPAD, SHIFT) && !flags_contain(NUMPAD, LEFT_SHIFT) && !flags_contain(
        NUMPAD,
        RIGHT_SHIFT,
    ) && !flags_contain(NUMPAD, CONTROL) && !flags_contain(NUMPAD, LEFT_CONTROL)
        && !flags_contain(NUMPAD, RIGHT_CONTROL) && !flags_contain(NUMPAD, OPTION)
        && !flags_contain(NUMPAD, LEFT_OPTION) && !flags_contain(NUMPAD, RIGHT_OPTION)
        && !flags_contain(NUMPAD, COMMAND) && !flags_contain(NUMPAD, LEFT_COMMAND)
        && !flags_contain(NUMPAD, RIGHT_COMMAND) && !flags_contain(NUMPAD, FUNCTION)
        && flags_contain(NUMPAD, NUMPAD) && !flags_contain(NUMPAD, HELP)) by (bit_vector);
    reveal_strlit("🌐");
    reveal_strlit("ƒ");
    reveal_strlit("⇭");
    reveal_strlit("🔢");
    assert(spec_format(FUNCTION, true) =~= "🌐"@);
    assert(spec_format(FUNCTION, false) =~= "ƒ"@);
    assert(spec_format(NUMPAD, true) =~= "⇭"@);
    assert(spec_format(NUMPAD, false) =~= "🔢"@);
    assert("🌐"@[0] != "ƒ"@[0]);
    assert("⇭"@[0] != "🔢"@[0]);
}

/// Rendering is a pure function of the flag bits and the alternate switch:
/// equal inputs render equally, however often the rendering is repeated.
pub proof fn lemma_format_deterministic(a: u64, b: u64, alt_a: bool, alt_b: bool)
    requires
        a == b,
        alt_a == alt_b,
    ensures
        spec_format(a, alt_a) == spec_format(b, alt_b),
{
}

} // verus!
