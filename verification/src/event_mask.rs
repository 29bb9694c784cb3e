//! A 64-bit flag set classifying event categories.
//!
//! Each named category occupies exactly one bit; the positions are fixed for
//! interoperability with the host platform's native event-type codes and
//! must never be renumbered. [`EventMask`] names the categories;
//! [`EventCategoryMask`] is the set type that wraps any raw 64-bit pattern,
//! named or not.

use vstd::prelude::*;
use crate::bitops::flags_contain;

verus! {

pub const LEFT_MOUSE_DOWN: u64 = 1u64 << 1;
pub const LEFT_MOUSE_UP: u64 = 1u64 << 2;
pub const RIGHT_MOUSE_DOWN: u64 = 1u64 << 3;
pub const RIGHT_MOUSE_UP: u64 = 1u64 << 4;
pub const MOUSE_MOVED: u64 = 1u64 << 5;
pub const LEFT_MOUSE_DRAGGED: u64 = 1u64 << 6;
pub const RIGHT_MOUSE_DRAGGED: u64 = 1u64 << 7;
pub const MOUSE_ENTERED: u64 = 1u64 << 8;
pub const MOUSE_EXITED: u64 = 1u64 << 9;
pub const KEY_DOWN: u64 = 1u64 << 10;
pub const KEY_UP: u64 = 1u64 << 11;
pub const FLAGS_CHANGED: u64 = 1u64 << 12;
pub const APP_KIT_DEFINED: u64 = 1u64 << 13;
pub const SYSTEM_DEFINED: u64 = 1u64 << 14;
pub const APPLICATION_DEFINED: u64 = 1u64 << 15;
pub const PERIODIC: u64 = 1u64 << 16;
pub const CURSOR_UPDATE: u64 = 1u64 << 17;
pub const ROTATE: u64 = 1u64 << 18;
pub const BEGIN_GESTURE: u64 = 1u64 << 19;
pub const END_GESTURE: u64 = 1u64 << 20;
pub const SCROLL_WHEEL: u64 = 1u64 << 22;
pub const TABLET_POINT: u64 = 1u64 << 23;
pub const TABLET_PROXIMITY: u64 = 1u64 << 24;
pub const OTHER_MOUSE_DOWN: u64 = 1u64 << 25;
pub const OTHER_MOUSE_UP: u64 = 1u64 << 26;
pub const OTHER_MOUSE_DRAGGED: u64 = 1u64 << 27;
pub const GESTURE: u64 = 1u64 << 29;
pub const MAGNIFY: u64 = 1u64 << 30;
pub const SWIPE: u64 = 1u64 << 31;
pub const SMART_MAGNIFY: u64 = 1u64 << 32;
pub const QUICK_LOOK: u64 = 1u64 << 33;
pub const PRESSURE: u64 = 1u64 << 34;
pub const DIRECT_TOUCH: u64 = 1u64 << 37;
pub const CHANGE_MODE: u64 = 1u64 << 38;

/// An EventMask describes the type of event: each named category sits at
/// one fixed bit position.
#[derive(Clone, Copy, Debug, PartialEq, Eq, Structural)]
pub enum EventMask {
    LeftMouseDown,
    LeftMouseUp,
    RightMouseDown,
    RightMouseUp,
    MouseMoved,
    LeftMouseDragged,
    RightMouseDragged,
    MouseEntered,
    MouseExited,
    KeyDown,
    KeyUp,
    FlagsChanged,
    AppKitDefined,
    SystemDefined,
    ApplicationDefined,
    Periodic,
    CursorUpdate,
    ScrollWheel,
    TabletPoint,
    TabletProximity,
    OtherMouseDown,
    OtherMouseUp,
    OtherMouseDragged,
    Gesture,
    Magnify,
    Swipe,
    Rotate,
    BeginGesture,
    EndGesture,
    SmartMagnify,
    QuickLook,
    Pressure,
    DirectTouch,
    ChangeMode,
}

/// The fixed bit of a named event category.
pub open spec fn event_mask_bits(mask: EventMask) -> u64 {
    match mask {
        EventMask::LeftMouseDown => LEFT_MOUSE_DOWN,
        EventMask::LeftMouseUp => LEFT_MOUSE_UP,
        EventMask::RightMouseDown => RIGHT_MOUSE_DOWN,
        EventMask::RightMouseUp => RIGHT_MOUSE_UP,
        EventMask::MouseMoved => MOUSE_MOVED,
        EventMask::LeftMouseDragged => LEFT_MOUSE_DRAGGED,
        EventMask::RightMouseDragged => RIGHT_MOUSE_DRAGGED,
        EventMask::MouseEntered => MOUSE_ENTERED,
        EventMask::MouseExited => MOUSE_EXITED,
        EventMask::KeyDown => KEY_DOWN,
        EventMask::KeyUp => KEY_UP,
        EventMask::FlagsChanged => FLAGS_CHANGED,
        EventMask::AppKitDefined => APP_KIT_DEFINED,
        EventMask::SystemDefined => SYSTEM_DEFINED,
        EventMask::ApplicationDefined => APPLICATION_DEFINED,
        EventMask::Periodic => PERIODIC,
        EventMask::CursorUpdate => CURSOR_UPDATE,
        EventMask::ScrollWheel => SCROLL_WHEEL,
        EventMask::TabletPoint => TABLET_POINT,
        EventMask::TabletProximity => TABLET_PROXIMITY,
        EventMask::OtherMouseDown => OTHER_MOUSE_DOWN,
        EventMask::OtherMouseUp => OTHER_MOUSE_UP,
        EventMask::OtherMouseDragged => OTHER_MOUSE_DRAGGED,
        EventMask::Gesture => GESTURE,
        EventMask::Magnify => MAGNIFY,
        EventMask::Swipe => SWIPE,
        EventMask::Rotate => ROTATE,
        EventMask::BeginGesture => BEGIN_GESTURE,
        EventMask::EndGesture => END_GESTURE,
        EventMask::SmartMagnify => SMART_MAGNIFY,
        EventMask::QuickLook => QUICK_LOOK,
        EventMask::Pressure => PRESSURE,
        EventMask::DirectTouch => DIRECT_TOUCH,
        EventMask::ChangeMode => CHANGE_MODE,
    }
}

impl EventMask {
    /// The raw bit of this named category.
    pub fn bits(self) -> (r: u64)
        ensures
            r == event_mask_bits(self),
    {
        match self {
            EventMask::LeftMouseDown => LEFT_MOUSE_DOWN,
            EventMask::LeftMouseUp => LEFT_MOUSE_UP,
            EventMask::RightMouseDown => RIGHT_MOUSE_DOWN,
            EventMask::RightMouseUp => RIGHT_MOUSE_UP,
            EventMask::MouseMoved => MOUSE_MOVED,
            EventMask::LeftMouseDragged => LEFT_MOUSE_DRAGGED,
            EventMask::RightMouseDragged => RIGHT_MOUSE_DRAGGED,
            EventMask::MouseEntered => MOUSE_ENTERED,
            EventMask::MouseExited => MOUSE_EXITED,
            EventMask::KeyDown => KEY_DOWN,
            EventMask::KeyUp => KEY_UP,
            EventMask::FlagsChanged => FLAGS_CHANGED,
            EventMask::AppKitDefined => APP_KIT_DEFINED,
            EventMask::SystemDefined => SYSTEM_DEFINED,
            EventMask::ApplicationDefined => APPLICATION_DEFINED,
            EventMask::Periodic => PERIODIC,
            EventMask::CursorUpdate => CURSOR_UPDATE,
            EventMask::ScrollWheel => SCROLL_WHEEL,
            EventMask::TabletPoint => TABLET_POINT,
            EventMask::TabletProximity => TABLET_PROXIMITY,
            EventMask::OtherMouseDown => OTHER_MOUSE_DOWN,
            EventMask::OtherMouseUp => OTHER_MOUSE_UP,
            EventMask::OtherMouseDragged => OTHER_MOUSE_DRAGGED,
            EventMask::Gesture => GESTURE,
            EventMask::Magnify => MAGNIFY,
            EventMask::Swipe => SWIPE,
            EventMask::Rotate => ROTATE,
            EventMask::BeginGesture => BEGIN_GESTURE,
            EventMask::EndGesture => END_GESTURE,
            EventMask::SmartMagnify => SMART_MAGNIFY,
            EventMask::QuickLook => QUICK_LOOK,
            EventMask::Pressure => PRESSURE,
            EventMask::DirectTouch => DIRECT_TOUCH,
            EventMask::ChangeMode => CHANGE_MODE,
        }
    }

    /// This named category as a one-category mask value.
    pub fn value(self) -> (r: EventCategoryMask)
        ensures
            r.bits == event_mask_bits(self),
    {
        EventCategoryMask { bits: self.bits() }
    }

    /// The mask holding both named categories.
    pub fn union(self, other: EventMask) -> (r: EventCategoryMask)
        ensures
            r.bits == event_mask_bits(self) | event_mask_bits(other),
    {
        self.value().union(other.value())
    }
}

/// A set of event categories over a 64-bit domain, wrapping any raw bit
/// pattern losslessly.
#[derive(Clone, Copy, Debug, PartialEq, Eq, Structural)]
pub struct EventCategoryMask {
    pub bits: u64,
}

impl EventCategoryMask {
    /// Wraps a raw bit field, losslessly; unnamed bits are kept as they are.
    pub fn from_raw(bits: u64) -> (r: EventCategoryMask)
        ensures
            r.bits == bits,
    {
        EventCategoryMask { bits }
    }

    /// The raw 64-bit value underneath.
    pub fn bits(&self) -> (r: u64)
        ensures
            r == self.bits,
    {
        self.bits
    }

    /// True when every bit of `other` is set in `self`.
    pub fn contains(&self, other: EventCategoryMask) -> (r: bool)
        ensures
            r == flags_contain(self.bits, other.bits),
    {
        self.bits & other.bits == other.bits
    }

    /// True when this mask contains the named category's bit.
    pub fn contains_mask(&self, mask: EventMask) -> (r: bool)
        ensures
            r == flags_contain(self.bits, event_mask_bits(mask)),
    {
        self.contains(mask.value())
    }

    /// The categories of either operand.
    pub fn union(&self, other: EventCategoryMask) -> (r: EventCategoryMask)
        ensures
            r.bits == self.bits | other.bits,
    {
        EventCategoryMask { bits: self.bits | other.bits }
    }

    /// The mask with the named category's bit added.
    pub fn union_mask(&self, mask: EventMask) -> (r: EventCategoryMask)
        ensures
            r.bits == self.bits | event_mask_bits(mask),
    {
        self.union(mask.value())
    }

    /// The categories common to both operands.
    pub fn intersection(&self, other: EventCategoryMask) -> (r: EventCategoryMask)
        ensures
            r.bits == self.bits & other.bits,
    {
        EventCategoryMask { bits: self.bits & other.bits }
    }

    /// The categories of `self` that `other` lacks.
    pub fn difference(&self, other: EventCategoryMask) -> (r: EventCategoryMask)
        ensures
            r.bits == self.bits & !other.bits,
    {
        EventCategoryMask { bits: self.bits & !other.bits }
    }
}

} // verus!
