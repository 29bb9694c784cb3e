use event_flags::event_mask::EventCategoryMask;
use event_flags::event_mask::EventMask;
use event_flags::modifier_flags::EventModifierBitFlag;
use event_flags::modifier_flags::EventModifierFlag;
use event_flags::modifier_flags::ModifierBitFlag;

#[test]
fn modifier_bits_round_trip() {
    let samples: Vec<u64> = vec![0, 1, 0x20002, 0xffff0000, 0xdead_beef_cafe_f00d, u64::MAX];
    for v in samples {
        assert_eq!(ModifierBitFlag::from_raw(v).bits(), v);
    }
}

#[test]
fn event_mask_bits_round_trip() {
    let samples: Vec<u64> = vec![0, 1u64 << 10, 0xffff_ffff_ffff_ffff];
    for v in samples {
        assert_eq!(EventCategoryMask::from_raw(v).bits(), v);
    }
}

#[test]
fn composite_containment_requires_both_sides() {
    // a left-shift-only value does not satisfy the composite test
    assert!(!EventModifierBitFlag::LeftShift.contains(EventModifierBitFlag::Shift));
    assert!(EventModifierBitFlag::LeftShift.contains(EventModifierBitFlag::LeftShift));
    assert!(EventModifierBitFlag::LeftShift
        .union(EventModifierBitFlag::RightShift)
        .contains_flag(EventModifierBitFlag::Shift));
}

#[test]
fn both_sides_union_equals_composite() {
    let both: ModifierBitFlag =
        EventModifierBitFlag::LeftShift.union(EventModifierBitFlag::RightShift);
    assert_eq!(both.bits(), EventModifierBitFlag::Shift.bits());
}

#[test]
fn mutual_containment_is_equality() {
    let a: ModifierBitFlag = EventModifierBitFlag::Shift.value();
    let b: ModifierBitFlag = EventModifierBitFlag::LeftShift.union(EventModifierBitFlag::RightShift);
    assert!(a.contains(b) && b.contains(a));
    assert_eq!(a.bits(), b.bits());
    // neither side contains the other, and they differ
    let l: ModifierBitFlag = EventModifierBitFlag::LeftShift.value();
    let r: ModifierBitFlag = EventModifierBitFlag::RightShift.value();
    assert!(!l.contains(r));
    assert!(!r.contains(l));
    assert_ne!(l.bits(), r.bits());
}

#[test]
fn set_operations_follow_bitwise_semantics() {
    let shift: ModifierBitFlag = EventModifierBitFlag::Shift.value();
    let left: ModifierBitFlag = EventModifierBitFlag::LeftShift.value();
    let right: ModifierBitFlag = EventModifierBitFlag::RightShift.value();
    assert_eq!(left.union(right).bits(), (1u64 << 17) | (1u64 << 1) | (1u64 << 2));
    assert_eq!(left.intersection(right).bits(), 1u64 << 17);
    // difference strips the shared base bit too: only the right tag bit is left
    assert_eq!(shift.difference(left).bits(), 1u64 << 2);
}

#[test]
fn named_modifier_flags_keep_their_positions() {
    assert_eq!(EventModifierBitFlag::CapsLock.bits(), 1u64 << 16);
    assert_eq!(EventModifierBitFlag::LeftShift.bits(), (1u64 << 17) | (1u64 << 1));
    assert_eq!(EventModifierBitFlag::RightShift.bits(), (1u64 << 17) | (1u64 << 2));
    assert_eq!(EventModifierBitFlag::LeftControl.bits(), (1u64 << 18) | (1u64 << 0));
    assert_eq!(EventModifierBitFlag::RightControl.bits(), (1u64 << 18) | (1u64 << 13));
    assert_eq!(EventModifierBitFlag::LeftOption.bits(), (1u64 << 19) | (1u64 << 5));
    assert_eq!(EventModifierBitFlag::RightOption.bits(), (1u64 << 19) | (1u64 << 6));
    assert_eq!(EventModifierBitFlag::LeftCommand.bits(), (1u64 << 20) | (1u64 << 3));
    assert_eq!(EventModifierBitFlag::RightCommand.bits(), (1u64 << 20) | (1u64 << 4));
    assert_eq!(EventModifierBitFlag::Numpad.bits(), 1u64 << 21);
    assert_eq!(EventModifierBitFlag::Help.bits(), 1u64 << 22);
    assert_eq!(EventModifierBitFlag::Function.bits(), 1u64 << 23);
    assert_eq!(EventModifierBitFlag::DeviceIndependentFlagsMask.bits(), 0xffff0000);
}

#[test]
fn composite_flags_are_unions_of_primitives() {
    assert_eq!(
        EventModifierBitFlag::Shift.bits(),
        EventModifierBitFlag::LeftShift.bits() | EventModifierBitFlag::RightShift.bits()
    );
    assert_eq!(
        EventModifierBitFlag::Control.bits(),
        EventModifierBitFlag::LeftControl.bits() | EventModifierBitFlag::RightControl.bits()
    );
    assert_eq!(
        EventModifierBitFlag::Option.bits(),
        EventModifierBitFlag::LeftOption.bits() | EventModifierBitFlag::RightOption.bits()
    );
    assert_eq!(
        EventModifierBitFlag::Command.bits(),
        EventModifierBitFlag::LeftCommand.bits() | EventModifierBitFlag::RightCommand.bits()
    );
    assert_eq!(
        EventModifierBitFlag::LRModi.bits(),
        EventModifierBitFlag::LeftModi.bits() | EventModifierBitFlag::RightModi.bits()
    );
}

#[test]
fn event_mask_containment_and_operations() {
    let keys: EventCategoryMask = EventMask::KeyDown.union(EventMask::KeyUp);
    assert!(keys.contains_mask(EventMask::KeyDown));
    assert!(keys.contains_mask(EventMask::KeyUp));
    assert!(!keys.contains_mask(EventMask::MouseMoved));
    assert_eq!(keys.intersection(EventMask::KeyUp.value()).bits(), 1u64 << 11);
    assert_eq!(keys.difference(EventMask::KeyUp.value()).bits(), 1u64 << 10);
    assert_eq!(EventMask::KeyDown.bits(), 1u64 << 10);
    assert_eq!(EventMask::ChangeMode.bits(), 1u64 << 38);
}

#[test]
fn coarse_modifier_names_map_to_fixed_bits() {
    assert_eq!(EventModifierFlag::CapsLock.bits(), 1u64 << 16);
    assert_eq!(EventModifierFlag::Control.bits(), 1u64 << 18);
    assert_eq!(EventModifierFlag::Option.bits(), 1u64 << 19);
    assert_eq!(EventModifierFlag::Command.bits(), 1u64 << 20);
    assert_eq!(EventModifierFlag::DeviceIndependentFlagsMask.bits(), 0xffff0000);
}
