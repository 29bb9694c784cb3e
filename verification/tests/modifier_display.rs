use event_flags::modifier_flags::EventModifierBitFlag;
use event_flags::modifier_flags::ModifierBitFlag;

#[test]
fn test_event_modifier_bit_flag_display() {
    assert_eq!("‹⇧", EventModifierBitFlag::LeftShift.format(false));
    assert_eq!("‹⇧›", EventModifierBitFlag::Shift.format(false));
    assert_eq!("⇧›", EventModifierBitFlag::RightShift.format(false));
    assert_eq!("‹⇧‹⌃‹⌥‹⌘", EventModifierBitFlag::LeftModi.format(false));
    assert_eq!("⇧›⌃›⌥›⌘›", EventModifierBitFlag::RightModi.format(false));
    assert_eq!("‹⇧›‹⌃›‹⌥›‹⌘›", EventModifierBitFlag::LRModi.format(false));
    // the alternate rendering, for when it acts as a modifier key
    assert_eq!("🌐", EventModifierBitFlag::Function.format(true));
    assert_eq!("ƒ", EventModifierBitFlag::Function.format(false));
    // the alternate rendering, for when it acts as a modifier key
    assert_eq!("⇭", EventModifierBitFlag::Numpad.format(true));
    assert_eq!("🔢", EventModifierBitFlag::Numpad.format(false));
    assert_eq!("ℹ", EventModifierBitFlag::Help.format(false));
    assert_eq!("!🖮", EventModifierBitFlag::DeviceIndependentFlagsMask.format(false));
    // Shift ignored, only flagmask remains
    assert_eq!(
        "!🖮",
        EventModifierBitFlag::DeviceIndependentFlagsMask
            .union(EventModifierBitFlag::RightShift)
            .format(false)
    );
}

#[test]
fn caps_lock_renders_alone() {
    assert_eq!("⇪", EventModifierBitFlag::CapsLock.format(false));
    assert_eq!("⇪", EventModifierBitFlag::CapsLock.format(true));
}

#[test]
fn control_sides_render_separately() {
    assert_eq!("‹⌃", EventModifierBitFlag::LeftControl.format(false));
    assert_eq!("⌃›", EventModifierBitFlag::RightControl.format(false));
    assert_eq!("‹⌃›", EventModifierBitFlag::Control.format(false));
}

#[test]
fn option_and_command_sides_render_separately() {
    assert_eq!("‹⌥", EventModifierBitFlag::LeftOption.format(false));
    assert_eq!("⌥›", EventModifierBitFlag::RightOption.format(false));
    assert_eq!("‹⌘", EventModifierBitFlag::LeftCommand.format(false));
    assert_eq!("⌘›", EventModifierBitFlag::RightCommand.format(false));
}

#[test]
fn families_concatenate_in_fixed_order() {
    let flags: ModifierBitFlag = EventModifierBitFlag::CapsLock
        .union(EventModifierBitFlag::LeftControl)
        .union_flag(EventModifierBitFlag::Help);
    assert_eq!("⇪‹⌃ℹ", flags.format(false));
}

#[test]
fn no_flags_render_empty() {
    assert_eq!("", ModifierBitFlag::from_raw(0).format(false));
    assert_eq!("", ModifierBitFlag::from_raw(0).format(true));
}

#[test]
fn unnamed_bits_render_empty() {
    assert_eq!("", ModifierBitFlag::from_raw(1u64 << 40).format(false));
    let mixed: ModifierBitFlag =
        ModifierBitFlag::from_raw(1u64 << 40).union_flag(EventModifierBitFlag::LeftShift);
    assert_eq!("‹⇧", mixed.format(false));
}

#[test]
fn alternate_mode_changes_function_and_numpad() {
    let function: EventModifierBitFlag = EventModifierBitFlag::Function;
    assert_ne!(function.format(true), function.format(false));
    let numpad: EventModifierBitFlag = EventModifierBitFlag::Numpad;
    assert_ne!(numpad.format(true), numpad.format(false));
}

#[test]
fn mask_short_circuits_over_everything() {
    let loaded: ModifierBitFlag = EventModifierBitFlag::DeviceIndependentFlagsMask
        .union(EventModifierBitFlag::LRModi)
        .union_flag(EventModifierBitFlag::Numpad)
        .union_flag(EventModifierBitFlag::Help);
    assert_eq!("!🖮", loaded.format(false));
    assert_eq!("!🖮", loaded.format(true));
}

#[test]
fn repeated_formatting_is_identical() {
    let flags: ModifierBitFlag =
        EventModifierBitFlag::LeftShift.union(EventModifierBitFlag::RightCommand);
    let first: String = flags.format(false);
    let second: String = flags.format(false);
    assert_eq!(first, second);
    assert_eq!(flags.format(true), flags.format(true));
}
