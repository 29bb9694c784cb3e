//! Input-event metadata for a desktop UI event stream.
//!
//! Two 64-bit flag sets describe events: [`event_mask::EventMask`] classifies
//! event categories (mouse, keyboard, gestures, system events), and
//! [`modifier_flags::EventModifierBitFlag`] records which modifier keys are
//! active, distinguishing the left and right variants of shift, control,
//! option and command. [`render`] turns a modifier set into a compact
//! symbolic string for key-combo hints.

pub mod bitops;
pub mod event_mask;
pub mod modifier_flags;
pub mod render;
