//! Events: their types, masks, phases, modifier flags and subtypes, and the
//! character codes of function keys.

use vstd::prelude::*;
use crate::bits;

verus! {

pub const NSEventSwipeTrackingLockDirection: u64 = 0x1 << 0;
pub const NSEventSwipeTrackingClampGestureAmount: u64 = 0x1 << 1;

/// Every bit that a set of swipe tracking options may hold.
pub const NSEventSwipeTrackingOptionsKnownBits: u64 = NSEventSwipeTrackingLockDirection | NSEventSwipeTrackingClampGestureAmount;

/// How a swipe gesture is tracked.
///
/// A value holds only bits of [`NSEventSwipeTrackingOptionsKnownBits`].
#[derive(Clone, Copy, Debug, PartialEq, Eq, Structural, Hash)]
pub struct NSEventSwipeTrackingOptions {
    bits: u64,
}

impl View for NSEventSwipeTrackingOptions {
    type V = u64;

    closed spec fn view(&self) -> u64 {
        self.bits
    }
}

impl NSEventSwipeTrackingOptions {
    #[verifier::type_invariant]
    closed spec fn within_known_bits(self) -> bool {
        self.bits & !NSEventSwipeTrackingOptionsKnownBits == 0
    }

    /// The set with no flag.
    pub fn empty() -> (r: Self)
        ensures
            r@ == 0,
    {
        proof {
            bits::lemma_u64_zero_within(NSEventSwipeTrackingOptionsKnownBits);
        }
        NSEventSwipeTrackingOptions { bits: 0 }
    }

    /// The set with every known flag.
    pub fn all() -> (r: Self)
        ensures
            r@ == NSEventSwipeTrackingOptionsKnownBits,
    {
        proof {
            bits::lemma_u64_mask_within(NSEventSwipeTrackingOptionsKnownBits);
        }
        NSEventSwipeTrackingOptions { bits: NSEventSwipeTrackingOptionsKnownBits }
    }

    /// The raw bits of the set; they are all known bits.
    pub fn bits(&self) -> (r: u64)
        ensures
            r == self@,
            r & !NSEventSwipeTrackingOptionsKnownBits == 0,
    {
        proof {
            use_type_invariant(self);
        }
        self.bits
    }

    /// The set with exactly the bits `b`, unless `b` holds an unknown bit.
    pub fn from_bits(b: u64) -> (r: Option<Self>)
        ensures
            r is Some <==> b & !NSEventSwipeTrackingOptionsKnownBits == 0,
            r matches Some(f) ==> f@ == b,
    {
        if b & !NSEventSwipeTrackingOptionsKnownBits == 0 {
            Some(NSEventSwipeTrackingOptions { bits: b })
        } else {
            None
        }
    }

    /// The set with the known bits of `b`; the others are dropped.
    pub fn from_bits_truncate(b: u64) -> (r: Self)
        ensures
            r@ == b & NSEventSwipeTrackingOptionsKnownBits,
    {
        proof {
            bits::lemma_u64_and_mask_within(b, NSEventSwipeTrackingOptionsKnownBits);
        }
        NSEventSwipeTrackingOptions { bits: b & NSEventSwipeTrackingOptionsKnownBits }
    }

    /// Whether no flag is set.
    pub fn is_empty(&self) -> (r: bool)
        ensures
            r == (self@ == 0),
    {
        self.bits == 0
    }

    /// Whether every known flag is set.
    pub fn is_all(&self) -> (r: bool)
        ensures
            r == (self@ == NSEventSwipeTrackingOptionsKnownBits),
    {
        self.bits == NSEventSwipeTrackingOptionsKnownBits
    }

    /// Whether the two sets share a flag.
    pub fn intersects(&self, other: &Self) -> (r: bool)
        ensures
            r == (self@ & other@ != 0),
    {
        self.bits & other.bits != 0
    }

    /// Whether every flag of `other` is set in `self`.
    pub fn contains(&self, other: &Self) -> (r: bool)
        ensures
            r == (self@ & other@ == other@),
    {
        self.bits & other.bits == other.bits
    }

    /// The flags of either set.
    pub fn union(&self, other: &Self) -> (r: Self)
        ensures
            r@ == self@ | other@,
    {
        proof {
            use_type_invariant(self);
            use_type_invariant(other);
            bits::lemma_u64_or_within(self.bits, other.bits, NSEventSwipeTrackingOptionsKnownBits);
        }
        NSEventSwipeTrackingOptions { bits: self.bits | other.bits }
    }

    /// The flags of both sets.
    pub fn intersection(&self, other: &Self) -> (r: Self)
        ensures
            r@ == self@ & other@,
    {
        proof {
            use_type_invariant(self);
            bits::lemma_u64_and_within(self.bits, other.bits, NSEventSwipeTrackingOptionsKnownBits);
        }
        NSEventSwipeTrackingOptions { bits: self.bits & other.bits }
    }

    /// The flags of `self` that are not in `other`.
    pub fn difference(&self, other: &Self) -> (r: Self)
        ensures
            r@ == self@ & !other@,
    {
        proof {
            use_type_invariant(self);
            bits::lemma_u64_and_within(self.bits, !other.bits, NSEventSwipeTrackingOptionsKnownBits);
        }
        NSEventSwipeTrackingOptions { bits: self.bits & !other.bits }
    }

    /// The flags of exactly one of the two sets.
    pub fn symmetric_difference(&self, other: &Self) -> (r: Self)
        ensures
            r@ == self@ ^ other@,
    {
        proof {
            use_type_invariant(self);
            use_type_invariant(other);
            bits::lemma_u64_xor_within(self.bits, other.bits, NSEventSwipeTrackingOptionsKnownBits);
        }
        NSEventSwipeTrackingOptions { bits: self.bits ^ other.bits }
    }

    /// The known flags that are not in `self`.
    pub fn complement(&self) -> (r: Self)
        ensures
            r@ == !self@ & NSEventSwipeTrackingOptionsKnownBits,
    {
        proof {
            bits::lemma_u64_and_mask_within(!self.bits, NSEventSwipeTrackingOptionsKnownBits);
        }
        NSEventSwipeTrackingOptions { bits: !self.bits & NSEventSwipeTrackingOptionsKnownBits }
    }

    /// Sets the flags of `other`.
    pub fn insert(&mut self, other: Self)
        ensures
            final(self)@ == old(self)@ | other@,
    {
        *self = self.union(&other);
    }

    /// Clears the flags of `other`.
    pub fn remove(&mut self, other: Self)
        ensures
            final(self)@ == old(self)@ & !other@,
    {
        *self = self.difference(&other);
    }

    /// Flips the flags of `other`.
    pub fn toggle(&mut self, other: Self)
        ensures
            final(self)@ == old(self)@ ^ other@,
    {
        *self = self.symmetric_difference(&other);
    }
}

/// The axis along which a gesture moves.
#[derive(Clone, Copy, Debug, PartialEq, Eq, Structural)]
pub enum NSEventGestureAxis {
    NSEventGestureAxisNone,
    NSEventGestureAxisHorizontal,
    NSEventGestureAxisVertical,
}

impl NSEventGestureAxis {
    /// The value AppKit uses for this member.
    pub open spec fn value(self) -> i64 {
        match self {
            NSEventGestureAxis::NSEventGestureAxisNone => 0i64,
            NSEventGestureAxis::NSEventGestureAxisHorizontal => 1i64,
            NSEventGestureAxis::NSEventGestureAxisVertical => 2i64,
        }
    }

    /// The native value of this member, as AppKit expects it in a message.
    pub fn raw(&self) -> (r: i64)
        ensures
            r == self.value(),
    {
        match self {
            NSEventGestureAxis::NSEventGestureAxisNone => 0i64,
            NSEventGestureAxis::NSEventGestureAxisHorizontal => 1i64,
            NSEventGestureAxis::NSEventGestureAxisVertical => 2i64,
        }
    }

    /// The member whose native value is `v`, if there is one.
    pub fn from_raw(v: i64) -> (r: Option<NSEventGestureAxis>)
        ensures
            r matches Some(e) ==> e.value() == v,
            forall|e: NSEventGestureAxis| #[trigger] e.value() == v ==> r == Some(e),
    {
        if v == 0i64 {
            Some(NSEventGestureAxis::NSEventGestureAxisNone)
        } else if v == 1i64 {
            Some(NSEventGestureAxis::NSEventGestureAxisHorizontal)
        } else if v == 2i64 {
            Some(NSEventGestureAxis::NSEventGestureAxisVertical)
        } else {
            None
        }
    }

    /// Distinct members have distinct native values.
    pub proof fn lemma_value_injective(a: NSEventGestureAxis, b: NSEventGestureAxis)
        ensures
            a.value() == b.value() ==> a == b,
    {
    }
}

pub const NSEventPhaseNone: u64 = 0;
pub const NSEventPhaseBegan: u64 = 0x1 << 0;
pub const NSEventPhaseStationary: u64 = 0x1 << 1;
pub const NSEventPhaseChanged: u64 = 0x1 << 2;
pub const NSEventPhaseEnded: u64 = 0x1 << 3;
pub const NSEventPhaseCancelled: u64 = 0x1 << 4;
pub const NSEventPhaseMayBegin: u64 = 0x1 << 5;

/// Every bit that an event phase may hold.
pub const NSEventPhaseKnownBits: u64 =
    NSEventPhaseNone
    | NSEventPhaseBegan
    | NSEventPhaseStationary
    | NSEventPhaseChanged
    | NSEventPhaseEnded
    | NSEventPhaseCancelled
    | NSEventPhaseMayBegin;

/// The phase of a gesture or of momentum scrolling.
///
/// A value holds only bits of [`NSEventPhaseKnownBits`].
#[derive(Clone, Copy, Debug, PartialEq, Eq, Structural, Hash)]
pub struct NSEventPhase {
    bits: u64,
}

impl View for NSEventPhase {
    type V = u64;

    closed spec fn view(&self) -> u64 {
        self.bits
    }
}

impl NSEventPhase {
    #[verifier::type_invariant]
    closed spec fn within_known_bits(self) -> bool {
        self.bits & !NSEventPhaseKnownBits == 0
    }

    /// The set with no flag.
    pub fn empty() -> (r: Self)
        ensures
            r@ == 0,
    {
        proof {
            bits::lemma_u64_zero_within(NSEventPhaseKnownBits);
        }
        NSEventPhase { bits: 0 }
    }

    /// The set with every known flag.
    pub fn all() -> (r: Self)
        ensures
            r@ == NSEventPhaseKnownBits,
    {
        proof {
            bits::lemma_u64_mask_within(NSEventPhaseKnownBits);
        }
        NSEventPhase { bits: NSEventPhaseKnownBits }
    }

    /// The raw bits of the set; they are all known bits.
    pub fn bits(&self) -> (r: u64)
        ensures
            r == self@,
            r & !NSEventPhaseKnownBits == 0,
    {
        proof {
            use_type_invariant(self);
        }
        self.bits
    }

    /// The set with exactly the bits `b`, unless `b` holds an unknown bit.
    pub fn from_bits(b: u64) -> (r: Option<Self>)
        ensures
            r is Some <==> b & !NSEventPhaseKnownBits == 0,
            r matches Some(f) ==> f@ == b,
    {
        if b & !NSEventPhaseKnownBits == 0 {
            Some(NSEventPhase { bits: b })
        } else {
            None
        }
    }

    /// The set with the known bits of `b`; the others are dropped.
    pub fn from_bits_truncate(b: u64) -> (r: Self)
        ensures
            r@ == b & NSEventPhaseKnownBits,
    {
        proof {
            bits::lemma_u64_and_mask_within(b, NSEventPhaseKnownBits);
        }
        NSEventPhase { bits: b & NSEventPhaseKnownBits }
    }

    /// Whether no flag is set.
    pub fn is_empty(&self) -> (r: bool)
        ensures
            r == (self@ == 0),
    {
        self.bits == 0
    }

    /// Whether every known flag is set.
    pub fn is_all(&self) -> (r: bool)
        ensures
            r == (self@ == NSEventPhaseKnownBits),
    {
        self.bits == NSEventPhaseKnownBits
    }

    /// Whether the two sets share a flag.
    pub fn intersects(&self, other: &Self) -> (r: bool)
        ensures
            r == (self@ & other@ != 0),
    {
        self.bits & other.bits != 0
    }

    /// Whether every flag of `other` is set in `self`.
    pub fn contains(&self, other: &Self) -> (r: bool)
        ensures
            r == (self@ & other@ == other@),
    {
        self.bits & other.bits == other.bits
    }

    /// The flags of either set.
    pub fn union(&self, other: &Self) -> (r: Self)
        ensures
            r@ == self@ | other@,
    {
        proof {
            use_type_invariant(self);
            use_type_invariant(other);
            bits::lemma_u64_or_within(self.bits, other.bits, NSEventPhaseKnownBits);
        }
        NSEventPhase { bits: self.bits | other.bits }
    }

    /// The flags of both sets.
    pub fn intersection(&self, other: &Self) -> (r: Self)
        ensures
            r@ == self@ & other@,
    {
        proof {
            use_type_invariant(self);
            bits::lemma_u64_and_within(self.bits, other.bits, NSEventPhaseKnownBits);
        }
        NSEventPhase { bits: self.bits & other.bits }
    }

    /// The flags of `self` that are not in `other`.
    pub fn difference(&self, other: &Self) -> (r: Self)
        ensures
            r@ == self@ & !other@,
    {
        proof {
            use_type_invariant(self);
            bits::lemma_u64_and_within(self.bits, !other.bits, NSEventPhaseKnownBits);
        }
        NSEventPhase { bits: self.bits & !other.bits }
    }

    /// The flags of exactly one of the two sets.
    pub fn symmetric_difference(&self, other: &Self) -> (r: Self)
        ensures
            r@ == self@ ^ other@,
    {
        proof {
            use_type_invariant(self);
            use_type_invariant(other);
            bits::lemma_u64_xor_within(self.bits, other.bits, NSEventPhaseKnownBits);
        }
        NSEventPhase { bits: self.bits ^ other.bits }
    }

    /// The known flags that are not in `self`.
    pub fn complement(&self) -> (r: Self)
        ensures
            r@ == !self@ & NSEventPhaseKnownBits,
    {
        proof {
            bits::lemma_u64_and_mask_within(!self.bits, NSEventPhaseKnownBits);
        }
        NSEventPhase { bits: !self.bits & NSEventPhaseKnownBits }
    }

    /// Sets the flags of `other`.
    pub fn insert(&mut self, other: Self)
        ensures
            final(self)@ == old(self)@ | other@,
    {
        *self = self.union(&other);
    }

    /// Clears the flags of `other`.
    pub fn remove(&mut self, other: Self)
        ensures
            final(self)@ == old(self)@ & !other@,
    {
        *self = self.difference(&other);
    }

    /// Flips the flags of `other`.
    pub fn toggle(&mut self, other: Self)
        ensures
            final(self)@ == old(self)@ ^ other@,
    {
        *self = self.symmetric_difference(&other);
    }
}

pub const NSTouchPhaseBegan: u64 = 1 << 0;
pub const NSTouchPhaseMoved: u64 = 1 << 1;
pub const NSTouchPhaseStationary: u64 = 1 << 2;
pub const NSTouchPhaseEnded: u64 = 1 << 3;
pub const NSTouchPhaseCancelled: u64 = 1 << 4;
/// A touch that is down: began, moved or stationary.
pub const NSTouchPhaseTouching: u64 = NSTouchPhaseBegan | NSTouchPhaseMoved | NSTouchPhaseStationary;
/// Every phase: the largest `NSUInteger`.
pub const NSTouchPhaseAny: u64 = !0;

/// Every bit that a touch phase may hold.
pub const NSTouchPhaseKnownBits: u64 =
    NSTouchPhaseBegan
    | NSTouchPhaseMoved
    | NSTouchPhaseStationary
    | NSTouchPhaseEnded
    | NSTouchPhaseCancelled
    | NSTouchPhaseTouching
    | NSTouchPhaseAny;

/// The phases of touches on a trackpad.
///
/// A value holds only bits of [`NSTouchPhaseKnownBits`].
#[derive(Clone, Copy, Debug, PartialEq, Eq, Structural, Hash)]
pub struct NSTouchPhase {
    bits: u64,
}

impl View for NSTouchPhase {
    type V = u64;

    closed spec fn view(&self) -> u64 {
        self.bits
    }
}

impl NSTouchPhase {
    #[verifier::type_invariant]
    closed spec fn within_known_bits(self) -> bool {
        self.bits & !NSTouchPhaseKnownBits == 0
    }

    /// The set with no flag.
    pub fn empty() -> (r: Self)
        ensures
            r@ == 0,
    {
        proof {
            bits::lemma_u64_zero_within(NSTouchPhaseKnownBits);
        }
        NSTouchPhase { bits: 0 }
    }

    /// The set with every known flag.
    pub fn all() -> (r: Self)
        ensures
            r@ == NSTouchPhaseKnownBits,
    {
        proof {
            bits::lemma_u64_mask_within(NSTouchPhaseKnownBits);
        }
        NSTouchPhase { bits: NSTouchPhaseKnownBits }
    }

    /// The raw bits of the set; they are all known bits.
    pub fn bits(&self) -> (r: u64)
        ensures
            r == self@,
            r & !NSTouchPhaseKnownBits == 0,
    {
        proof {
            use_type_invariant(self);
        }
        self.bits
    }

    /// The set with exactly the bits `b`, unless `b` holds an unknown bit.
    pub fn from_bits(b: u64) -> (r: Option<Self>)
        ensures
            r is Some <==> b & !NSTouchPhaseKnownBits == 0,
            r matches Some(f) ==> f@ == b,
    {
        if b & !NSTouchPhaseKnownBits == 0 {
            Some(NSTouchPhase { bits: b })
        } else {
            None
        }
    }

    /// The set with the known bits of `b`; the others are dropped.
    pub fn from_bits_truncate(b: u64) -> (r: Self)
        ensures
            r@ == b & NSTouchPhaseKnownBits,
    {
        proof {
            bits::lemma_u64_and_mask_within(b, NSTouchPhaseKnownBits);
        }
        NSTouchPhase { bits: b & NSTouchPhaseKnownBits }
    }

    /// Whether no flag is set.
    pub fn is_empty(&self) -> (r: bool)
        ensures
            r == (self@ == 0),
    {
        self.bits == 0
    }

    /// Whether every known flag is set.
    pub fn is_all(&self) -> (r: bool)
        ensures
            r == (self@ == NSTouchPhaseKnownBits),
    {
        self.bits == NSTouchPhaseKnownBits
    }

    /// Whether the two sets share a flag.
    pub fn intersects(&self, other: &Self) -> (r: bool)
        ensures
            r == (self@ & other@ != 0),
    {
        self.bits & other.bits != 0
    }

    /// Whether every flag of `other` is set in `self`.
    pub fn contains(&self, other: &Self) -> (r: bool)
        ensures
            r == (self@ & other@ == other@),
    {
        self.bits & other.bits == other.bits
    }

    /// The flags of either set.
    pub fn union(&self, other: &Self) -> (r: Self)
        ensures
            r@ == self@ | other@,
    {
        proof {
            use_type_invariant(self);
            use_type_invariant(other);
            bits::lemma_u64_or_within(self.bits, other.bits, NSTouchPhaseKnownBits);
        }
        NSTouchPhase { bits: self.bits | other.bits }
    }

    /// The flags of both sets.
    pub fn intersection(&self, other: &Self) -> (r: Self)
        ensures
            r@ == self@ & other@,
    {
        proof {
            use_type_invariant(self);
            bits::lemma_u64_and_within(self.bits, other.bits, NSTouchPhaseKnownBits);
        }
        NSTouchPhase { bits: self.bits & other.bits }
    }

    /// The flags of `self` that are not in `other`.
    pub fn difference(&self, other: &Self) -> (r: Self)
        ensures
            r@ == self@ & !other@,
    {
        proof {
            use_type_invariant(self);
            bits::lemma_u64_and_within(self.bits, !other.bits, NSTouchPhaseKnownBits);
        }
        NSTouchPhase { bits: self.bits & !other.bits }
    }

    /// The flags of exactly one of the two sets.
    pub fn symmetric_difference(&self, other: &Self) -> (r: Self)
        ensures
            r@ == self@ ^ other@,
    {
        proof {
            use_type_invariant(self);
            use_type_invariant(other);
            bits::lemma_u64_xor_within(self.bits, other.bits, NSTouchPhaseKnownBits);
        }
        NSTouchPhase { bits: self.bits ^ other.bits }
    }

    /// The known flags that are not in `self`.
    pub fn complement(&self) -> (r: Self)
        ensures
            r@ == !self@ & NSTouchPhaseKnownBits,
    {
        proof {
            bits::lemma_u64_and_mask_within(!self.bits, NSTouchPhaseKnownBits);
        }
        NSTouchPhase { bits: !self.bits & NSTouchPhaseKnownBits }
    }

    /// Sets the flags of `other`.
    pub fn insert(&mut self, other: Self)
        ensures
            final(self)@ == old(self)@ | other@,
    {
        *self = self.union(&other);
    }

    /// Clears the flags of `other`.
    pub fn remove(&mut self, other: Self)
        ensures
            final(self)@ == old(self)@ & !other@,
    {
        *self = self.difference(&other);
    }

    /// Flips the flags of `other`.
    pub fn toggle(&mut self, other: Self)
        ensures
            final(self)@ == old(self)@ ^ other@,
    {
        *self = self.symmetric_difference(&other);
    }
}

/// The kinds of event that AppKit delivers.
#[derive(Clone, Copy, Debug, PartialEq, Eq, Structural)]
pub enum NSEventType {
    NSLeftMouseDown,
    NSLeftMouseUp,
    NSRightMouseDown,
    NSRightMouseUp,
    NSMouseMoved,
    NSLeftMouseDragged,
    NSRightMouseDragged,
    NSMouseEntered,
    NSMouseExited,
    NSKeyDown,
    NSKeyUp,
    NSFlagsChanged,
    NSAppKitDefined,
    NSSystemDefined,
    NSApplicationDefined,
    NSPeriodic,
    NSCursorUpdate,
    NSScrollWheel,
    NSTabletPoint,
    NSTabletProximity,
    NSOtherMouseDown,
    NSOtherMouseUp,
    NSOtherMouseDragged,
    NSEventTypeGesture,
    NSEventTypeMagnify,
    NSEventTypeSwipe,
    NSEventTypeRotate,
    NSEventTypeBeginGesture,
    NSEventTypeEndGesture,
    NSEventTypePressure,
}

impl NSEventType {
    /// The value AppKit uses for this member.
    pub open spec fn value(self) -> u64 {
        match self {
            NSEventType::NSLeftMouseDown => 1u64,
            NSEventType::NSLeftMouseUp => 2u64,
            NSEventType::NSRightMouseDown => 3u64,
            NSEventType::NSRightMouseUp => 4u64,
            NSEventType::NSMouseMoved => 5u64,
            NSEventType::NSLeftMouseDragged => 6u64,
            NSEventType::NSRightMouseDragged => 7u64,
            NSEventType::NSMouseEntered => 8u64,
            NSEventType::NSMouseExited => 9u64,
            NSEventType::NSKeyDown => 10u64,
            NSEventType::NSKeyUp => 11u64,
            NSEventType::NSFlagsChanged => 12u64,
            NSEventType::NSAppKitDefined => 13u64,
            NSEventType::NSSystemDefined => 14u64,
            NSEventType::NSApplicationDefined => 15u64,
            NSEventType::NSPeriodic => 16u64,
            NSEventType::NSCursorUpdate => 17u64,
            NSEventType::NSScrollWheel => 22u64,
            NSEventType::NSTabletPoint => 23u64,
            NSEventType::NSTabletProximity => 24u64,
            NSEventType::NSOtherMouseDown => 25u64,
            NSEventType::NSOtherMouseUp => 26u64,
            NSEventType::NSOtherMouseDragged => 27u64,
            NSEventType::NSEventTypeGesture => 29u64,
            NSEventType::NSEventTypeMagnify => 30u64,
            NSEventType::NSEventTypeSwipe => 31u64,
            NSEventType::NSEventTypeRotate => 18u64,
            NSEventType::NSEventTypeBeginGesture => 19u64,
            NSEventType::NSEventTypeEndGesture => 20u64,
            NSEventType::NSEventTypePressure => 34u64,
        }
    }

    /// The native value of this member, as AppKit expects it in a message.
    pub fn raw(&self) -> (r: u64)
        ensures
            r == self.value(),
    {
        match self {
            NSEventType::NSLeftMouseDown => 1u64,
            NSEventType::NSLeftMouseUp => 2u64,
            NSEventType::NSRightMouseDown => 3u64,
            NSEventType::NSRightMouseUp => 4u64,
            NSEventType::NSMouseMoved => 5u64,
            NSEventType::NSLeftMouseDragged => 6u64,
            NSEventType::NSRightMouseDragged => 7u64,
            NSEventType::NSMouseEntered => 8u64,
            NSEventType::NSMouseExited => 9u64,
            NSEventType::NSKeyDown => 10u64,
            NSEventType::NSKeyUp => 11u64,
            NSEventType::NSFlagsChanged => 12u64,
            NSEventType::NSAppKitDefined => 13u64,
            NSEventType::NSSystemDefined => 14u64,
            NSEventType::NSApplicationDefined => 15u64,
            NSEventType::NSPeriodic => 16u64,
            NSEventType::NSCursorUpdate => 17u64,
            NSEventType::NSScrollWheel => 22u64,
            NSEventType::NSTabletPoint => 23u64,
            NSEventType::NSTabletProximity => 24u64,
            NSEventType::NSOtherMouseDown => 25u64,
            NSEventType::NSOtherMouseUp => 26u64,
            NSEventType::NSOtherMouseDragged => 27u64,
            NSEventType::NSEventTypeGesture => 29u64,
            NSEventType::NSEventTypeMagnify => 30u64,
            NSEventType::NSEventTypeSwipe => 31u64,
            NSEventType::NSEventTypeRotate => 18u64,
            NSEventType::NSEventTypeBeginGesture => 19u64,
            NSEventType::NSEventTypeEndGesture => 20u64,
            NSEventType::NSEventTypePressure => 34u64,
        }
    }

    /// The member whose native value is `v`, if there is one.
    pub fn from_raw(v: u64) -> (r: Option<NSEventType>)
        ensures
            r matches Some(e) ==> e.value() == v,
            forall|e: NSEventType| #[trigger] e.value() == v ==> r == Some(e),
    {
        if v == 1u64 {
            Some(NSEventType::NSLeftMouseDown)
        } else if v == 2u64 {
            Some(NSEventType::NSLeftMouseUp)
        } else if v == 3u64 {
            Some(NSEventType::NSRightMouseDown)
        } else if v == 4u64 {
            Some(NSEventType::NSRightMouseUp)
        } else if v == 5u64 {
            Some(NSEventType::NSMouseMoved)
        } else if v == 6u64 {
            Some(NSEventType::NSLeftMouseDragged)
        } else if v == 7u64 {
            Some(NSEventType::NSRightMouseDragged)
        } else if v == 8u64 {
            Some(NSEventType::NSMouseEntered)
        } else if v == 9u64 {
            Some(NSEventType::NSMouseExited)
        } else if v == 10u64 {
            Some(NSEventType::NSKeyDown)
        } else if v == 11u64 {
            Some(NSEventType::NSKeyUp)
        } else if v == 12u64 {
            Some(NSEventType::NSFlagsChanged)
        } else if v == 13u64 {
            Some(NSEventType::NSAppKitDefined)
        } else if v == 14u64 {
            Some(NSEventType::NSSystemDefined)
        } else if v == 15u64 {
            Some(NSEventType::NSApplicationDefined)
        } else if v == 16u64 {
            Some(NSEventType::NSPeriodic)
        } else if v == 17u64 {
            Some(NSEventType::NSCursorUpdate)
        } else if v == 22u64 {
            Some(NSEventType::NSScrollWheel)
        } else if v == 23u64 {
            Some(NSEventType::NSTabletPoint)
        } else if v == 24u64 {
            Some(NSEventType::NSTabletProximity)
        } else if v == 25u64 {
            Some(NSEventType::NSOtherMouseDown)
        } else if v == 26u64 {
            Some(NSEventType::NSOtherMouseUp)
        } else if v == 27u64 {
            Some(NSEventType::NSOtherMouseDragged)
        } else if v == 29u64 {
            Some(NSEventType::NSEventTypeGesture)
        } else if v == 30u64 {
            Some(NSEventType::NSEventTypeMagnify)
        } else if v == 31u64 {
            Some(NSEventType::NSEventTypeSwipe)
        } else if v == 18u64 {
            Some(NSEventType::NSEventTypeRotate)
        } else if v == 19u64 {
            Some(NSEventType::NSEventTypeBeginGesture)
        } else if v == 20u64 {
            Some(NSEventType::NSEventTypeEndGesture)
        } else if v == 34u64 {
            Some(NSEventType::NSEventTypePressure)
        } else {
            None
        }
    }

    /// Distinct members have distinct native values.
    pub proof fn lemma_value_injective(a: NSEventType, b: NSEventType)
        ensures
            a.value() == b.value() ==> a == b,
    {
    }
}

pub const NSLeftMouseDownMask: u64 = 1 << 1;
pub const NSLeftMouseUpMask: u64 = 1 << 2;
pub const NSRightMouseDownMask: u64 = 1 << 3;
pub const NSRightMouseUpMask: u64 = 1 << 4;
pub const NSMouseMovedMask: u64 = 1 << 5;
pub const NSLeftMouseDraggedMask: u64 = 1 << 6;
pub const NSRightMouseDraggedMask: u64 = 1 << 7;
pub const NSMouseEnteredMask: u64 = 1 << 8;
pub const NSMouseExitedMask: u64 = 1 << 9;
pub const NSKeyDownMask: u64 = 1 << 10;
pub const NSKeyUpMask: u64 = 1 << 11;
pub const NSFlagsChangedMask: u64 = 1 << 12;
pub const NSAppKitDefinedMask: u64 = 1 << 13;
pub const NSSystemDefinedMask: u64 = 1 << 14;
pub const NSApplicationDefinedMask: u64 = 1 << 15;
pub const NSPeriodicMask: u64 = 1 << 16;
pub const NSCursorUpdateMask: u64 = 1 << 17;
pub const NSScrollWheelMask: u64 = 1 << 22;
pub const NSTabletPointMask: u64 = 1 << 23;
pub const NSTabletProximityMask: u64 = 1 << 24;
pub const NSOtherMouseDownMask: u64 = 1 << 25;
pub const NSOtherMouseUpMask: u64 = 1 << 26;
pub const NSOtherMouseDraggedMask: u64 = 1 << 27;
pub const NSEventMaskGesture: u64 = 1 << 29;
pub const NSEventMaskSwipe: u64 = 1 << 31;
pub const NSEventMaskRotate: u64 = 1 << 18;
pub const NSEventMaskBeginGesture: u64 = 1 << 19;
pub const NSEventMaskEndGesture: u64 = 1 << 20;
pub const NSEventMaskPressure: u64 = 1 << 34;
/// The low thirty-two bits: every event type below thirty-two.
pub const NSAnyEventMask: u64 = 0xffffffff;

/// Every bit that an event mask may hold.
pub const NSEventMaskKnownBits: u64 =
    NSLeftMouseDownMask
    | NSLeftMouseUpMask
    | NSRightMouseDownMask
    | NSRightMouseUpMask
    | NSMouseMovedMask
    | NSLeftMouseDraggedMask
    | NSRightMouseDraggedMask
    | NSMouseEnteredMask
    | NSMouseExitedMask
    | NSKeyDownMask
    | NSKeyUpMask
    | NSFlagsChangedMask
    | NSAppKitDefinedMask
    | NSSystemDefinedMask
    | NSApplicationDefinedMask
    | NSPeriodicMask
    | NSCursorUpdateMask
    | NSScrollWheelMask
    | NSTabletPointMask
    | NSTabletProximityMask
    | NSOtherMouseDownMask
    | NSOtherMouseUpMask
    | NSOtherMouseDraggedMask
    | NSEventMaskGesture
    | NSEventMaskSwipe
    | NSEventMaskRotate
    | NSEventMaskBeginGesture
    | NSEventMaskEndGesture
    | NSEventMaskPressure
    | NSAnyEventMask;

/// The event types that a wait for the next event accepts: bit `t` stands for
/// the type whose value is `t`.
///
/// A value holds only bits of [`NSEventMaskKnownBits`].
#[derive(Clone, Copy, Debug, PartialEq, Eq, Structural, Hash)]
pub struct NSEventMask {
    bits: u64,
}

impl View for NSEventMask {
    type V = u64;

    closed spec fn view(&self) -> u64 {
        self.bits
    }
}

impl NSEventMask {
    #[verifier::type_invariant]
    closed spec fn within_known_bits(self) -> bool {
        self.bits & !NSEventMaskKnownBits == 0
    }

    /// The set with no flag.
    pub fn empty() -> (r: Self)
        ensures
            r@ == 0,
    {
        proof {
            bits::lemma_u64_zero_within(NSEventMaskKnownBits);
        }
        NSEventMask { bits: 0 }
    }

    /// The set with every known flag.
    pub fn all() -> (r: Self)
        ensures
            r@ == NSEventMaskKnownBits,
    {
        proof {
            bits::lemma_u64_mask_within(NSEventMaskKnownBits);
        }
        NSEventMask { bits: NSEventMaskKnownBits }
    }

    /// The raw bits of the set; they are all known bits.
    pub fn bits(&self) -> (r: u64)
        ensures
            r == self@,
            r & !NSEventMaskKnownBits == 0,
    {
        proof {
            use_type_invariant(self);
        }
        self.bits
    }

    /// The set with exactly the bits `b`, unless `b` holds an unknown bit.
    pub fn from_bits(b: u64) -> (r: Option<Self>)
        ensures
            r is Some <==> b & !NSEventMaskKnownBits == 0,
            r matches Some(f) ==> f@ == b,
    {
        if b & !NSEventMaskKnownBits == 0 {
            Some(NSEventMask { bits: b })
        } else {
            None
        }
    }

    /// The set with the known bits of `b`; the others are dropped.
    pub fn from_bits_truncate(b: u64) -> (r: Self)
        ensures
            r@ == b & NSEventMaskKnownBits,
    {
        proof {
            bits::lemma_u64_and_mask_within(b, NSEventMaskKnownBits);
        }
        NSEventMask { bits: b & NSEventMaskKnownBits }
    }

    /// Whether no flag is set.
    pub fn is_empty(&self) -> (r: bool)
        ensures
            r == (self@ == 0),
    {
        self.bits == 0
    }

    /// Whether every known flag is set.
    pub fn is_all(&self) -> (r: bool)
        ensures
            r == (self@ == NSEventMaskKnownBits),
    {
        self.bits == NSEventMaskKnownBits
    }

    /// Whether the two sets share a flag.
    pub fn intersects(&self, other: &Self) -> (r: bool)
        ensures
            r == (self@ & other@ != 0),
    {
        self.bits & other.bits != 0
    }

    /// Whether every flag of `other` is set in `self`.
    pub fn contains(&self, other: &Self) -> (r: bool)
        ensures
            r == (self@ & other@ == other@),
    {
        self.bits & other.bits == other.bits
    }

    /// The flags of either set.
    pub fn union(&self, other: &Self) -> (r: Self)
        ensures
            r@ == self@ | other@,
    {
        proof {
            use_type_invariant(self);
            use_type_invariant(other);
            bits::lemma_u64_or_within(self.bits, other.bits, NSEventMaskKnownBits);
        }
        NSEventMask { bits: self.bits | other.bits }
    }

    /// The flags of both sets.
    pub fn intersection(&self, other: &Self) -> (r: Self)
        ensures
            r@ == self@ & other@,
    {
        proof {
            use_type_invariant(self);
            bits::lemma_u64_and_within(self.bits, other.bits, NSEventMaskKnownBits);
        }
        NSEventMask { bits: self.bits & other.bits }
    }

    /// The flags of `self` that are not in `other`.
    pub fn difference(&self, other: &Self) -> (r: Self)
        ensures
            r@ == self@ & !other@,
    {
        proof {
            use_type_invariant(self);
            bits::lemma_u64_and_within(self.bits, !other.bits, NSEventMaskKnownBits);
        }
        NSEventMask { bits: self.bits & !other.bits }
    }

    /// The flags of exactly one of the two sets.
    pub fn symmetric_difference(&self, other: &Self) -> (r: Self)
        ensures
            r@ == self@ ^ other@,
    {
        proof {
            use_type_invariant(self);
            use_type_invariant(other);
            bits::lemma_u64_xor_within(self.bits, other.bits, NSEventMaskKnownBits);
        }
        NSEventMask { bits: self.bits ^ other.bits }
    }

    /// The known flags that are not in `self`.
    pub fn complement(&self) -> (r: Self)
        ensures
            r@ == !self@ & NSEventMaskKnownBits,
    {
        proof {
            bits::lemma_u64_and_mask_within(!self.bits, NSEventMaskKnownBits);
        }
        NSEventMask { bits: !self.bits & NSEventMaskKnownBits }
    }

    /// Sets the flags of `other`.
    pub fn insert(&mut self, other: Self)
        ensures
            final(self)@ == old(self)@ | other@,
    {
        *self = self.union(&other);
    }

    /// Clears the flags of `other`.
    pub fn remove(&mut self, other: Self)
        ensures
            final(self)@ == old(self)@ & !other@,
    {
        *self = self.difference(&other);
    }

    /// Flips the flags of `other`.
    pub fn toggle(&mut self, other: Self)
        ensures
            final(self)@ == old(self)@ ^ other@,
    {
        *self = self.symmetric_difference(&other);
    }
}

impl NSEventMask {
    /// The mask that matches the events of type `ty` and no other.
    pub fn from_type(ty: NSEventType) -> (r: NSEventMask)
        ensures
            r@ == 1u64 << ty.value(),
    {
        let shift = ty.raw();
        proof {
            lemma_event_type_bit_known(shift);
        }
        NSEventMask { bits: 1u64 << shift }
    }
}

proof fn lemma_event_type_bit_known(v: u64)
    by (bit_vector)
    requires
        1 <= v <= 31 || v == 34,
    ensures
        (1u64 << v) & !NSEventMaskKnownBits == 0,
{
}

/// Each event type's mask, as `from_type` gives it, is the mask constant named
/// after that type.
pub proof fn lemma_from_type_matches_mask_constants()
    ensures
        1u64 << NSEventType::NSLeftMouseDown.value() == NSLeftMouseDownMask,
        1u64 << NSEventType::NSLeftMouseUp.value() == NSLeftMouseUpMask,
        1u64 << NSEventType::NSRightMouseDown.value() == NSRightMouseDownMask,
        1u64 << NSEventType::NSRightMouseUp.value() == NSRightMouseUpMask,
        1u64 << NSEventType::NSMouseMoved.value() == NSMouseMovedMask,
        1u64 << NSEventType::NSLeftMouseDragged.value() == NSLeftMouseDraggedMask,
        1u64 << NSEventType::NSRightMouseDragged.value() == NSRightMouseDraggedMask,
        1u64 << NSEventType::NSMouseEntered.value() == NSMouseEnteredMask,
        1u64 << NSEventType::NSMouseExited.value() == NSMouseExitedMask,
        1u64 << NSEventType::NSKeyDown.value() == NSKeyDownMask,
        1u64 << NSEventType::NSKeyUp.value() == NSKeyUpMask,
        1u64 << NSEventType::NSFlagsChanged.value() == NSFlagsChangedMask,
        1u64 << NSEventType::NSAppKitDefined.value() == NSAppKitDefinedMask,
        1u64 << NSEventType::NSSystemDefined.value() == NSSystemDefinedMask,
        1u64 << NSEventType::NSApplicationDefined.value() == NSApplicationDefinedMask,
        1u64 << NSEventType::NSPeriodic.value() == NSPeriodicMask,
        1u64 << NSEventType::NSCursorUpdate.value() == NSCursorUpdateMask,
        1u64 << NSEventType::NSScrollWheel.value() == NSScrollWheelMask,
        1u64 << NSEventType::NSTabletPoint.value() == NSTabletPointMask,
        1u64 << NSEventType::NSTabletProximity.value() == NSTabletProximityMask,
        1u64 << NSEventType::NSOtherMouseDown.value() == NSOtherMouseDownMask,
        1u64 << NSEventType::NSOtherMouseUp.value() == NSOtherMouseUpMask,
        1u64 << NSEventType::NSOtherMouseDragged.value() == NSOtherMouseDraggedMask,
        1u64 << NSEventType::NSEventTypeGesture.value() == NSEventMaskGesture,
        1u64 << NSEventType::NSEventTypeSwipe.value() == NSEventMaskSwipe,
        1u64 << NSEventType::NSEventTypeRotate.value() == NSEventMaskRotate,
        1u64 << NSEventType::NSEventTypeBeginGesture.value() == NSEventMaskBeginGesture,
        1u64 << NSEventType::NSEventTypeEndGesture.value() == NSEventMaskEndGesture,
        1u64 << NSEventType::NSEventTypePressure.value() == NSEventMaskPressure,
{
    assert(
        1u64 << 1u64 == NSLeftMouseDownMask
        && 1u64 << 2u64 == NSLeftMouseUpMask
        && 1u64 << 3u64 == NSRightMouseDownMask
        && 1u64 << 4u64 == NSRightMouseUpMask
        && 1u64 << 5u64 == NSMouseMovedMask
        && 1u64 << 6u64 == NSLeftMouseDraggedMask
        && 1u64 << 7u64 == NSRightMouseDraggedMask
        && 1u64 << 8u64 == NSMouseEnteredMask
        && 1u64 << 9u64 == NSMouseExitedMask
        && 1u64 << 10u64 == NSKeyDownMask
        && 1u64 << 11u64 == NSKeyUpMask
        && 1u64 << 12u64 == NSFlagsChangedMask
        && 1u64 << 13u64 == NSAppKitDefinedMask
        && 1u64 << 14u64 == NSSystemDefinedMask
        && 1u64 << 15u64 == NSApplicationDefinedMask
        && 1u64 << 16u64 == NSPeriodicMask
        && 1u64 << 17u64 == NSCursorUpdateMask
        && 1u64 << 22u64 == NSScrollWheelMask
        && 1u64 << 23u64 == NSTabletPointMask
        && 1u64 << 24u64 == NSTabletProximityMask
        && 1u64 << 25u64 == NSOtherMouseDownMask
        && 1u64 << 26u64 == NSOtherMouseUpMask
        && 1u64 << 27u64 == NSOtherMouseDraggedMask
        && 1u64 << 29u64 == NSEventMaskGesture
        && 1u64 << 31u64 == NSEventMaskSwipe
        && 1u64 << 18u64 == NSEventMaskRotate
        && 1u64 << 19u64 == NSEventMaskBeginGesture
        && 1u64 << 20u64 == NSEventMaskEndGesture
        && 1u64 << 34u64 == NSEventMaskPressure
    ) by (bit_vector);
}

pub const NSAlphaShiftKeyMask: u64 = 1 << 16;
pub const NSShiftKeyMask: u64 = 1 << 17;
pub const NSControlKeyMask: u64 = 1 << 18;
pub const NSAlternateKeyMask: u64 = 1 << 19;
pub const NSCommandKeyMask: u64 = 1 << 20;
pub const NSNumericPadKeyMask: u64 = 1 << 21;
pub const NSHelpKeyMask: u64 = 1 << 22;
pub const NSFunctionKeyMask: u64 = 1 << 23;
/// The bits that do not depend on the keyboard.
pub const NSDeviceIndependentModifierFlagsMask: u64 = 0xffff0000;

/// Every bit that a set of modifier flags may hold.
pub const NSEventModifierFlagsKnownBits: u64 =
    NSAlphaShiftKeyMask
    | NSShiftKeyMask
    | NSControlKeyMask
    | NSAlternateKeyMask
    | NSCommandKeyMask
    | NSNumericPadKeyMask
    | NSHelpKeyMask
    | NSFunctionKeyMask
    | NSDeviceIndependentModifierFlagsMask;

/// The modifier keys held down during an event.
///
/// A value holds only bits of [`NSEventModifierFlagsKnownBits`].
#[derive(Clone, Copy, Debug, PartialEq, Eq, Structural, Hash)]
pub struct NSEventModifierFlags {
    bits: u64,
}

impl View for NSEventModifierFlags {
    type V = u64;

    closed spec fn view(&self) -> u64 {
        self.bits
    }
}

impl NSEventModifierFlags {
    #[verifier::type_invariant]
    closed spec fn within_known_bits(self) -> bool {
        self.bits & !NSEventModifierFlagsKnownBits == 0
    }

    /// The set with no flag.
    pub fn empty() -> (r: Self)
        ensures
            r@ == 0,
    {
        proof {
            bits::lemma_u64_zero_within(NSEventModifierFlagsKnownBits);
        }
        NSEventModifierFlags { bits: 0 }
    }

    /// The set with every known flag.
    pub fn all() -> (r: Self)
        ensures
            r@ == NSEventModifierFlagsKnownBits,
    {
        proof {
            bits::lemma_u64_mask_within(NSEventModifierFlagsKnownBits);
        }
        NSEventModifierFlags { bits: NSEventModifierFlagsKnownBits }
    }

    /// The raw bits of the set; they are all known bits.
    pub fn bits(&self) -> (r: u64)
        ensures
            r == self@,
            r & !NSEventModifierFlagsKnownBits == 0,
    {
        proof {
            use_type_invariant(self);
        }
        self.bits
    }

    /// The set with exactly the bits `b`, unless `b` holds an unknown bit.
    pub fn from_bits(b: u64) -> (r: Option<Self>)
        ensures
            r is Some <==> b & !NSEventModifierFlagsKnownBits == 0,
            r matches Some(f) ==> f@ == b,
    {
        if b & !NSEventModifierFlagsKnownBits == 0 {
            Some(NSEventModifierFlags { bits: b })
        } else {
            None
        }
    }

    /// The set with the known bits of `b`; the others are dropped.
    pub fn from_bits_truncate(b: u64) -> (r: Self)
        ensures
            r@ == b & NSEventModifierFlagsKnownBits,
    {
        proof {
            bits::lemma_u64_and_mask_within(b, NSEventModifierFlagsKnownBits);
        }
        NSEventModifierFlags { bits: b & NSEventModifierFlagsKnownBits }
    }

    /// Whether no flag is set.
    pub fn is_empty(&self) -> (r: bool)
        ensures
            r == (self@ == 0),
    {
        self.bits == 0
    }

    /// Whether every known flag is set.
    pub fn is_all(&self) -> (r: bool)
        ensures
            r == (self@ == NSEventModifierFlagsKnownBits),
    {
        self.bits == NSEventModifierFlagsKnownBits
    }

    /// Whether the two sets share a flag.
    pub fn intersects(&self, other: &Self) -> (r: bool)
        ensures
            r == (self@ & other@ != 0),
    {
        self.bits & other.bits != 0
    }

    /// Whether every flag of `other` is set in `self`.
    pub fn contains(&self, other: &Self) -> (r: bool)
        ensures
            r == (self@ & other@ == other@),
    {
        self.bits & other.bits == other.bits
    }

    /// The flags of either set.
    pub fn union(&self, other: &Self) -> (r: Self)
        ensures
            r@ == self@ | other@,
    {
        proof {
            use_type_invariant(self);
            use_type_invariant(other);
            bits::lemma_u64_or_within(self.bits, other.bits, NSEventModifierFlagsKnownBits);
        }
        NSEventModifierFlags { bits: self.bits | other.bits }
    }

    /// The flags of both sets.
    pub fn intersection(&self, other: &Self) -> (r: Self)
        ensures
            r@ == self@ & other@,
    {
        proof {
            use_type_invariant(self);
            bits::lemma_u64_and_within(self.bits, other.bits, NSEventModifierFlagsKnownBits);
        }
        NSEventModifierFlags { bits: self.bits & other.bits }
    }

    /// The flags of `self` that are not in `other`.
    pub fn difference(&self, other: &Self) -> (r: Self)
        ensures
            r@ == self@ & !other@,
    {
        proof {
            use_type_invariant(self);
            bits::lemma_u64_and_within(self.bits, !other.bits, NSEventModifierFlagsKnownBits);
        }
        NSEventModifierFlags { bits: self.bits & !other.bits }
    }

    /// The flags of exactly one of the two sets.
    pub fn symmetric_difference(&self, other: &Self) -> (r: Self)
        ensures
            r@ == self@ ^ other@,
    {
        proof {
            use_type_invariant(self);
            use_type_invariant(other);
            bits::lemma_u64_xor_within(self.bits, other.bits, NSEventModifierFlagsKnownBits);
        }
        NSEventModifierFlags { bits: self.bits ^ other.bits }
    }

    /// The known flags that are not in `self`.
    pub fn complement(&self) -> (r: Self)
        ensures
            r@ == !self@ & NSEventModifierFlagsKnownBits,
    {
        proof {
            bits::lemma_u64_and_mask_within(!self.bits, NSEventModifierFlagsKnownBits);
        }
        NSEventModifierFlags { bits: !self.bits & NSEventModifierFlagsKnownBits }
    }

    /// Sets the flags of `other`.
    pub fn insert(&mut self, other: Self)
        ensures
            final(self)@ == old(self)@ | other@,
    {
        *self = self.union(&other);
    }

    /// Clears the flags of `other`.
    pub fn remove(&mut self, other: Self)
        ensures
            final(self)@ == old(self)@ & !other@,
    {
        *self = self.difference(&other);
    }

    /// Flips the flags of `other`.
    pub fn toggle(&mut self, other: Self)
        ensures
            final(self)@ == old(self)@ ^ other@,
    {
        *self = self.symmetric_difference(&other);
    }
}

/// The kind of pointing device in a tablet proximity event.
#[derive(Clone, Copy, Debug, PartialEq, Eq, Structural)]
pub enum NSPointingDeviceType {
    NSUnknownPointingDevice,
    NSPenPointingDevice,
    NSCursorPointingDevice,
    NSEraserPointingDevice,
}

impl NSPointingDeviceType {
    /// The value AppKit uses for this member.
    pub open spec fn value(self) -> u64 {
        match self {
            NSPointingDeviceType::NSUnknownPointingDevice => 0u64,
            NSPointingDeviceType::NSPenPointingDevice => 1u64,
            NSPointingDeviceType::NSCursorPointingDevice => 2u64,
            NSPointingDeviceType::NSEraserPointingDevice => 3u64,
        }
    }

    /// The native value of this member, as AppKit expects it in a message.
    pub fn raw(&self) -> (r: u64)
        ensures
            r == self.value(),
    {
        match self {
            NSPointingDeviceType::NSUnknownPointingDevice => 0u64,
            NSPointingDeviceType::NSPenPointingDevice => 1u64,
            NSPointingDeviceType::NSCursorPointingDevice => 2u64,
            NSPointingDeviceType::NSEraserPointingDevice => 3u64,
        }
    }

    /// The member whose native value is `v`, if there is one.
    pub fn from_raw(v: u64) -> (r: Option<NSPointingDeviceType>)
        ensures
            r matches Some(e) ==> e.value() == v,
            forall|e: NSPointingDeviceType| #[trigger] e.value() == v ==> r == Some(e),
    {
        if v == 0u64 {
            Some(NSPointingDeviceType::NSUnknownPointingDevice)
        } else if v == 1u64 {
            Some(NSPointingDeviceType::NSPenPointingDevice)
        } else if v == 2u64 {
            Some(NSPointingDeviceType::NSCursorPointingDevice)
        } else if v == 3u64 {
            Some(NSPointingDeviceType::NSEraserPointingDevice)
        } else {
            None
        }
    }

    /// Distinct members have distinct native values.
    pub proof fn lemma_value_injective(a: NSPointingDeviceType, b: NSPointingDeviceType)
        ensures
            a.value() == b.value() ==> a == b,
    {
    }
}

/// The buttons of a tablet pen.
#[derive(Clone, Copy, Debug, PartialEq, Eq, Structural)]
pub enum NSEventButtonMask {
    NSPenTipMask,
    NSPenLowerSideMask,
    NSPenUpperSideMask,
}

impl NSEventButtonMask {
    /// The value AppKit uses for this member.
    pub open spec fn value(self) -> u64 {
        match self {
            NSEventButtonMask::NSPenTipMask => 0x1u64,
            NSEventButtonMask::NSPenLowerSideMask => 0x2u64,
            NSEventButtonMask::NSPenUpperSideMask => 0x4u64,
        }
    }

    /// The native value of this member, as AppKit expects it in a message.
    pub fn raw(&self) -> (r: u64)
        ensures
            r == self.value(),
    {
        match self {
            NSEventButtonMask::NSPenTipMask => 0x1u64,
            NSEventButtonMask::NSPenLowerSideMask => 0x2u64,
            NSEventButtonMask::NSPenUpperSideMask => 0x4u64,
        }
    }

    /// The member whose native value is `v`, if there is one.
    pub fn from_raw(v: u64) -> (r: Option<NSEventButtonMask>)
        ensures
            r matches Some(e) ==> e.value() == v,
            forall|e: NSEventButtonMask| #[trigger] e.value() == v ==> r == Some(e),
    {
        if v == 0x1u64 {
            Some(NSEventButtonMask::NSPenTipMask)
        } else if v == 0x2u64 {
            Some(NSEventButtonMask::NSPenLowerSideMask)
        } else if v == 0x4u64 {
            Some(NSEventButtonMask::NSPenUpperSideMask)
        } else {
            None
        }
    }

    /// Distinct members have distinct native values.
    pub proof fn lemma_value_injective(a: NSEventButtonMask, b: NSEventButtonMask)
        ensures
            a.value() == b.value() ==> a == b,
    {
    }
}

/// The subtypes of an event of the AppKit-defined type.
#[derive(Clone, Copy, Debug, PartialEq, Eq, Structural)]
pub enum NSEventSubtype {
    NSWindowExposedEventType,
    NSApplicationActivatedEventType,
    NSApplicationDeactivatedEventType,
    NSWindowMovedEventType,
    NSScreenChangedEventType,
    NSAWTEventType,
}

impl NSEventSubtype {
    /// The value AppKit uses for this member.
    pub open spec fn value(self) -> i16 {
        match self {
            NSEventSubtype::NSWindowExposedEventType => 0i16,
            NSEventSubtype::NSApplicationActivatedEventType => 1i16,
            NSEventSubtype::NSApplicationDeactivatedEventType => 2i16,
            NSEventSubtype::NSWindowMovedEventType => 4i16,
            NSEventSubtype::NSScreenChangedEventType => 8i16,
            NSEventSubtype::NSAWTEventType => 16i16,
        }
    }

    /// The native value of this member, as AppKit expects it in a message.
    pub fn raw(&self) -> (r: i16)
        ensures
            r == self.value(),
    {
        match self {
            NSEventSubtype::NSWindowExposedEventType => 0i16,
            NSEventSubtype::NSApplicationActivatedEventType => 1i16,
            NSEventSubtype::NSApplicationDeactivatedEventType => 2i16,
            NSEventSubtype::NSWindowMovedEventType => 4i16,
            NSEventSubtype::NSScreenChangedEventType => 8i16,
            NSEventSubtype::NSAWTEventType => 16i16,
        }
    }

    /// The member whose native value is `v`, if there is one.
    pub fn from_raw(v: i16) -> (r: Option<NSEventSubtype>)
        ensures
            r matches Some(e) ==> e.value() == v,
            forall|e: NSEventSubtype| #[trigger] e.value() == v ==> r == Some(e),
    {
        if v == 0i16 {
            Some(NSEventSubtype::NSWindowExposedEventType)
        } else if v == 1i16 {
            Some(NSEventSubtype::NSApplicationActivatedEventType)
        } else if v == 2i16 {
            Some(NSEventSubtype::NSApplicationDeactivatedEventType)
        } else if v == 4i16 {
            Some(NSEventSubtype::NSWindowMovedEventType)
        } else if v == 8i16 {
            Some(NSEventSubtype::NSScreenChangedEventType)
        } else if v == 16i16 {
            Some(NSEventSubtype::NSAWTEventType)
        } else {
            None
        }
    }

    /// Distinct members have distinct native values.
    pub proof fn lemma_value_injective(a: NSEventSubtype, b: NSEventSubtype)
        ensures
            a.value() == b.value() ==> a == b,
    {
    }
}

// The character codes that AppKit gives to the function keys, in the range
// that Unicode reserves for private use.
pub const NSUpArrowFunctionKey: u16 = 0xF700;
pub const NSDownArrowFunctionKey: u16 = 0xF701;
pub const NSLeftArrowFunctionKey: u16 = 0xF702;
pub const NSRightArrowFunctionKey: u16 = 0xF703;
pub const NSF1FunctionKey: u16 = 0xF704;
pub const NSF2FunctionKey: u16 = 0xF705;
pub const NSF3FunctionKey: u16 = 0xF706;
pub const NSF4FunctionKey: u16 = 0xF707;
pub const NSF5FunctionKey: u16 = 0xF708;
pub const NSF6FunctionKey: u16 = 0xF709;
pub const NSF7FunctionKey: u16 = 0xF70A;
pub const NSF8FunctionKey: u16 = 0xF70B;
pub const NSF9FunctionKey: u16 = 0xF70C;
pub const NSF10FunctionKey: u16 = 0xF70D;
pub const NSF11FunctionKey: u16 = 0xF70E;
pub const NSF12FunctionKey: u16 = 0xF70F;
pub const NSF13FunctionKey: u16 = 0xF710;
pub const NSF14FunctionKey: u16 = 0xF711;
pub const NSF15FunctionKey: u16 = 0xF712;
pub const NSF16FunctionKey: u16 = 0xF713;
pub const NSF17FunctionKey: u16 = 0xF714;
pub const NSF18FunctionKey: u16 = 0xF715;
pub const NSF19FunctionKey: u16 = 0xF716;
pub const NSF20FunctionKey: u16 = 0xF717;
pub const NSF21FunctionKey: u16 = 0xF718;
pub const NSF22FunctionKey: u16 = 0xF719;
pub const NSF23FunctionKey: u16 = 0xF71A;
pub const NSF24FunctionKey: u16 = 0xF71B;
pub const NSF25FunctionKey: u16 = 0xF71C;
pub const NSF26FunctionKey: u16 = 0xF71D;
pub const NSF27FunctionKey: u16 = 0xF71E;
pub const NSF28FunctionKey: u16 = 0xF71F;
pub const NSF29FunctionKey: u16 = 0xF720;
pub const NSF30FunctionKey: u16 = 0xF721;
pub const NSF31FunctionKey: u16 = 0xF722;
pub const NSF32FunctionKey: u16 = 0xF723;
pub const NSF33FunctionKey: u16 = 0xF724;
pub const NSF34FunctionKey: u16 = 0xF725;
pub const NSF35FunctionKey: u16 = 0xF726;
pub const NSInsertFunctionKey: u16 = 0xF727;
pub const NSDeleteFunctionKey: u16 = 0xF728;
pub const NSHomeFunctionKey: u16 = 0xF729;
pub const NSBeginFunctionKey: u16 = 0xF72A;
pub const NSEndFunctionKey: u16 = 0xF72B;
pub const NSPageUpFunctionKey: u16 = 0xF72C;
pub const NSPageDownFunctionKey: u16 = 0xF72D;
pub const NSPrintScreenFunctionKey: u16 = 0xF72E;
pub const NSScrollLockFunctionKey: u16 = 0xF72F;
pub const NSPauseFunctionKey: u16 = 0xF730;
pub const NSSysReqFunctionKey: u16 = 0xF731;
pub const NSBreakFunctionKey: u16 = 0xF732;
pub const NSResetFunctionKey: u16 = 0xF733;
pub const NSStopFunctionKey: u16 = 0xF734;
pub const NSMenuFunctionKey: u16 = 0xF735;
pub const NSUserFunctionKey: u16 = 0xF736;
pub const NSSystemFunctionKey: u16 = 0xF737;
pub const NSPrintFunctionKey: u16 = 0xF738;
pub const NSClearLineFunctionKey: u16 = 0xF739;
pub const NSClearDisplayFunctionKey: u16 = 0xF73A;
pub const NSInsertLineFunctionKey: u16 = 0xF73B;
pub const NSDeleteLineFunctionKey: u16 = 0xF73C;
pub const NSInsertCharFunctionKey: u16 = 0xF73D;
pub const NSDeleteCharFunctionKey: u16 = 0xF73E;
pub const NSPrevFunctionKey: u16 = 0xF73F;
pub const NSNextFunctionKey: u16 = 0xF740;
pub const NSSelectFunctionKey: u16 = 0xF741;
pub const NSExecuteFunctionKey: u16 = 0xF742;
pub const NSUndoFunctionKey: u16 = 0xF743;
pub const NSRedoFunctionKey: u16 = 0xF744;
pub const NSFindFunctionKey: u16 = 0xF745;
pub const NSHelpFunctionKey: u16 = 0xF746;
pub const NSModeSwitchFunctionKey: u16 = 0xF747;

} // verus!
