//! Windows: style masks, backing stores, buttons, ordering, alignment and
//! collection behaviour.

use vstd::prelude::*;
use crate::bits;

verus! {

/// The style bits of a window; a style is the bitwise or of the members' values.
#[derive(Clone, Copy, Debug, PartialEq, Eq, Structural)]
pub enum NSWindowMask {
    NSBorderlessWindowMask,
    NSTitledWindowMask,
    NSClosableWindowMask,
    NSMiniaturizableWindowMask,
    NSResizableWindowMask,
    NSTexturedBackgroundWindowMask,
    NSUnifiedTitleAndToolbarWindowMask,
    NSFullScreenWindowMask,
    NSFullSizeContentViewWindowMask,
}

impl NSWindowMask {
    /// The value AppKit uses for this member.
    pub open spec fn value(self) -> u64 {
        match self {
            NSWindowMask::NSBorderlessWindowMask => 0u64,
            NSWindowMask::NSTitledWindowMask => 0x1u64,
            NSWindowMask::NSClosableWindowMask => 0x2u64,
            NSWindowMask::NSMiniaturizableWindowMask => 0x4u64,
            NSWindowMask::NSResizableWindowMask => 0x8u64,
            NSWindowMask::NSTexturedBackgroundWindowMask => 0x100u64,
            NSWindowMask::NSUnifiedTitleAndToolbarWindowMask => 0x1000u64,
            NSWindowMask::NSFullScreenWindowMask => 0x4000u64,
            NSWindowMask::NSFullSizeContentViewWindowMask => 0x8000u64,
        }
    }

    /// The native value of this member, as AppKit expects it in a message.
    pub fn raw(&self) -> (r: u64)
        ensures
            r == self.value(),
    {
        match self {
            NSWindowMask::NSBorderlessWindowMask => 0u64,
            NSWindowMask::NSTitledWindowMask => 0x1u64,
            NSWindowMask::NSClosableWindowMask => 0x2u64,
            NSWindowMask::NSMiniaturizableWindowMask => 0x4u64,
            NSWindowMask::NSResizableWindowMask => 0x8u64,
            NSWindowMask::NSTexturedBackgroundWindowMask => 0x100u64,
            NSWindowMask::NSUnifiedTitleAndToolbarWindowMask => 0x1000u64,
            NSWindowMask::NSFullScreenWindowMask => 0x4000u64,
            NSWindowMask::NSFullSizeContentViewWindowMask => 0x8000u64,
        }
    }

    /// The member whose native value is `v`, if there is one.
    pub fn from_raw(v: u64) -> (r: Option<NSWindowMask>)
        ensures
            r matches Some(e) ==> e.value() == v,
            forall|e: NSWindowMask| #[trigger] e.value() == v ==> r == Some(e),
    {
        if v == 0u64 {
            Some(NSWindowMask::NSBorderlessWindowMask)
        } else if v == 0x1u64 {
            Some(NSWindowMask::NSTitledWindowMask)
        } else if v == 0x2u64 {
            Some(NSWindowMask::NSClosableWindowMask)
        } else if v == 0x4u64 {
            Some(NSWindowMask::NSMiniaturizableWindowMask)
        } else if v == 0x8u64 {
            Some(NSWindowMask::NSResizableWindowMask)
        } else if v == 0x100u64 {
            Some(NSWindowMask::NSTexturedBackgroundWindowMask)
        } else if v == 0x1000u64 {
            Some(NSWindowMask::NSUnifiedTitleAndToolbarWindowMask)
        } else if v == 0x4000u64 {
            Some(NSWindowMask::NSFullScreenWindowMask)
        } else if v == 0x8000u64 {
            Some(NSWindowMask::NSFullSizeContentViewWindowMask)
        } else {
            None
        }
    }

    /// Distinct members have distinct native values.
    pub proof fn lemma_value_injective(a: NSWindowMask, b: NSWindowMask)
        ensures
            a.value() == b.value() ==> a == b,
    {
    }
}

/// Whether a window shows its title.
#[derive(Clone, Copy, Debug, PartialEq, Eq, Structural)]
pub enum NSWindowTitleVisibility {
    NSWindowTitleVisible,
    NSWindowTitleHidden,
}

impl NSWindowTitleVisibility {
    /// The value AppKit uses for this member.
    pub open spec fn value(self) -> u64 {
        match self {
            NSWindowTitleVisibility::NSWindowTitleVisible => 0u64,
            NSWindowTitleVisibility::NSWindowTitleHidden => 1u64,
        }
    }

    /// The native value of this member, as AppKit expects it in a message.
    pub fn raw(&self) -> (r: u64)
        ensures
            r == self.value(),
    {
        match self {
            NSWindowTitleVisibility::NSWindowTitleVisible => 0u64,
            NSWindowTitleVisibility::NSWindowTitleHidden => 1u64,
        }
    }

    /// The member whose native value is `v`, if there is one.
    pub fn from_raw(v: u64) -> (r: Option<NSWindowTitleVisibility>)
        ensures
            r matches Some(e) ==> e.value() == v,
            forall|e: NSWindowTitleVisibility| #[trigger] e.value() == v ==> r == Some(e),
    {
        if v == 0u64 {
            Some(NSWindowTitleVisibility::NSWindowTitleVisible)
        } else if v == 1u64 {
            Some(NSWindowTitleVisibility::NSWindowTitleHidden)
        } else {
            None
        }
    }

    /// Distinct members have distinct native values.
    pub proof fn lemma_value_injective(a: NSWindowTitleVisibility, b: NSWindowTitleVisibility)
        ensures
            a.value() == b.value() ==> a == b,
    {
    }
}

/// How a window's drawing is buffered.
#[derive(Clone, Copy, Debug, PartialEq, Eq, Structural)]
pub enum NSBackingStoreType {
    NSBackingStoreRetained,
    NSBackingStoreNonretained,
    NSBackingStoreBuffered,
}

impl NSBackingStoreType {
    /// The value AppKit uses for this member.
    pub open spec fn value(self) -> u64 {
        match self {
            NSBackingStoreType::NSBackingStoreRetained => 0u64,
            NSBackingStoreType::NSBackingStoreNonretained => 1u64,
            NSBackingStoreType::NSBackingStoreBuffered => 2u64,
        }
    }

    /// The native value of this member, as AppKit expects it in a message.
    pub fn raw(&self) -> (r: u64)
        ensures
            r == self.value(),
    {
        match self {
            NSBackingStoreType::NSBackingStoreRetained => 0u64,
            NSBackingStoreType::NSBackingStoreNonretained => 1u64,
            NSBackingStoreType::NSBackingStoreBuffered => 2u64,
        }
    }

    /// The member whose native value is `v`, if there is one.
    pub fn from_raw(v: u64) -> (r: Option<NSBackingStoreType>)
        ensures
            r matches Some(e) ==> e.value() == v,
            forall|e: NSBackingStoreType| #[trigger] e.value() == v ==> r == Some(e),
    {
        if v == 0u64 {
            Some(NSBackingStoreType::NSBackingStoreRetained)
        } else if v == 1u64 {
            Some(NSBackingStoreType::NSBackingStoreNonretained)
        } else if v == 2u64 {
            Some(NSBackingStoreType::NSBackingStoreBuffered)
        } else {
            None
        }
    }

    /// Distinct members have distinct native values.
    pub proof fn lemma_value_injective(a: NSBackingStoreType, b: NSBackingStoreType)
        ensures
            a.value() == b.value() ==> a == b,
    {
    }
}

/// The standard buttons of a window's title bar.
#[derive(Clone, Copy, Debug, PartialEq, Eq, Structural)]
pub enum NSWindowButton {
    NSWindowCloseButton,
    NSWindowMiniaturizeButton,
    NSWindowZoomButton,
    NSWindowToolbarButton,
    NSWindowDocumentIconButton,
    NSWindowDocumentVersionsButton,
    NSWindowFullScreenButton,
}

impl NSWindowButton {
    /// The value AppKit uses for this member.
    pub open spec fn value(self) -> u64 {
        match self {
            NSWindowButton::NSWindowCloseButton => 0u64,
            NSWindowButton::NSWindowMiniaturizeButton => 1u64,
            NSWindowButton::NSWindowZoomButton => 2u64,
            NSWindowButton::NSWindowToolbarButton => 3u64,
            NSWindowButton::NSWindowDocumentIconButton => 4u64,
            NSWindowButton::NSWindowDocumentVersionsButton => 6u64,
            NSWindowButton::NSWindowFullScreenButton => 7u64,
        }
    }

    /// The native value of this member, as AppKit expects it in a message.
    pub fn raw(&self) -> (r: u64)
        ensures
            r == self.value(),
    {
        match self {
            NSWindowButton::NSWindowCloseButton => 0u64,
            NSWindowButton::NSWindowMiniaturizeButton => 1u64,
            NSWindowButton::NSWindowZoomButton => 2u64,
            NSWindowButton::NSWindowToolbarButton => 3u64,
            NSWindowButton::NSWindowDocumentIconButton => 4u64,
            NSWindowButton::NSWindowDocumentVersionsButton => 6u64,
            NSWindowButton::NSWindowFullScreenButton => 7u64,
        }
    }

    /// The member whose native value is `v`, if there is one.
    pub fn from_raw(v: u64) -> (r: Option<NSWindowButton>)
        ensures
            r matches Some(e) ==> e.value() == v,
            forall|e: NSWindowButton| #[trigger] e.value() == v ==> r == Some(e),
    {
        if v == 0u64 {
            Some(NSWindowButton::NSWindowCloseButton)
        } else if v == 1u64 {
            Some(NSWindowButton::NSWindowMiniaturizeButton)
        } else if v == 2u64 {
            Some(NSWindowButton::NSWindowZoomButton)
        } else if v == 3u64 {
            Some(NSWindowButton::NSWindowToolbarButton)
        } else if v == 4u64 {
            Some(NSWindowButton::NSWindowDocumentIconButton)
        } else if v == 6u64 {
            Some(NSWindowButton::NSWindowDocumentVersionsButton)
        } else if v == 7u64 {
            Some(NSWindowButton::NSWindowFullScreenButton)
        } else {
            None
        }
    }

    /// Distinct members have distinct native values.
    pub proof fn lemma_value_injective(a: NSWindowButton, b: NSWindowButton)
        ensures
            a.value() == b.value() ==> a == b,
    {
    }
}

/// The depth of a window's backing store, as AppKit encodes it.
pub type NSWindowDepth = i32;

/// The level of the main menu window.
pub const NSMainMenuWindowLevel: i32 = 24;

pub const NSWindowAbove: i64 = 1;
pub const NSWindowBelow: i64 = -1;
pub const NSWindowOut: i64 = 0;

/// Every bit that a window ordering mode may hold.
pub const NSWindowOrderingModeKnownBits: i64 = NSWindowAbove | NSWindowBelow | NSWindowOut;

/// Where a window is placed relative to another one.
///
/// A value holds only bits of [`NSWindowOrderingModeKnownBits`].
#[derive(Clone, Copy, Debug, PartialEq, Eq, Structural, Hash)]
pub struct NSWindowOrderingMode {
    bits: i64,
}

impl View for NSWindowOrderingMode {
    type V = i64;

    closed spec fn view(&self) -> i64 {
        self.bits
    }
}

impl NSWindowOrderingMode {
    #[verifier::type_invariant]
    closed spec fn within_known_bits(self) -> bool {
        self.bits & !NSWindowOrderingModeKnownBits == 0
    }

    /// The set with no flag.
    pub fn empty() -> (r: Self)
        ensures
            r@ == 0,
    {
        proof {
            bits::lemma_i64_zero_within(NSWindowOrderingModeKnownBits);
        }
        NSWindowOrderingMode { bits: 0 }
    }

    /// The set with every known flag.
    pub fn all() -> (r: Self)
        ensures
            r@ == NSWindowOrderingModeKnownBits,
    {
        proof {
            bits::lemma_i64_mask_within(NSWindowOrderingModeKnownBits);
        }
        NSWindowOrderingMode { bits: NSWindowOrderingModeKnownBits }
    }

    /// The raw bits of the set; they are all known bits.
    pub fn bits(&self) -> (r: i64)
        ensures
            r == self@,
            r & !NSWindowOrderingModeKnownBits == 0,
    {
        proof {
            use_type_invariant(self);
        }
        self.bits
    }

    /// The set with exactly the bits `b`, unless `b` holds an unknown bit.
    pub fn from_bits(b: i64) -> (r: Option<Self>)
        ensures
            r is Some <==> b & !NSWindowOrderingModeKnownBits == 0,
            r matches Some(f) ==> f@ == b,
    {
        if b & !NSWindowOrderingModeKnownBits == 0 {
            Some(NSWindowOrderingMode { bits: b })
        } else {
            None
        }
    }

    /// The set with the known bits of `b`; the others are dropped.
    pub fn from_bits_truncate(b: i64) -> (r: Self)
        ensures
            r@ == b & NSWindowOrderingModeKnownBits,
    {
        proof {
            bits::lemma_i64_and_mask_within(b, NSWindowOrderingModeKnownBits);
        }
        NSWindowOrderingMode { bits: b & NSWindowOrderingModeKnownBits }
    }

    /// Whether no flag is set.
    pub fn is_empty(&self) -> (r: bool)
        ensures
            r == (self@ == 0),
    {
        self.bits == 0
    }

    /// Whether every known flag is set.
    pub fn is_all(&self) -> (r: bool)
        ensures
            r == (self@ == NSWindowOrderingModeKnownBits),
    {
        self.bits == NSWindowOrderingModeKnownBits
    }

    /// Whether the two sets share a flag.
    pub fn intersects(&self, other: &Self) -> (r: bool)
        ensures
            r == (self@ & other@ != 0),
    {
        self.bits & other.bits != 0
    }

    /// Whether every flag of `other` is set in `self`.
    pub fn contains(&self, other: &Self) -> (r: bool)
        ensures
            r == (self@ & other@ == other@),
    {
        self.bits & other.bits == other.bits
    }

    /// The flags of either set.
    pub fn union(&self, other: &Self) -> (r: Self)
        ensures
            r@ == self@ | other@,
    {
        proof {
            use_type_invariant(self);
            use_type_invariant(other);
            bits::lemma_i64_or_within(self.bits, other.bits, NSWindowOrderingModeKnownBits);
        }
        NSWindowOrderingMode { bits: self.bits | other.bits }
    }

    /// The flags of both sets.
    pub fn intersection(&self, other: &Self) -> (r: Self)
        ensures
            r@ == self@ & other@,
    {
        proof {
            use_type_invariant(self);
            bits::lemma_i64_and_within(self.bits, other.bits, NSWindowOrderingModeKnownBits);
        }
        NSWindowOrderingMode { bits: self.bits & other.bits }
    }

    /// The flags of `self` that are not in `other`.
    pub fn difference(&self, other: &Self) -> (r: Self)
        ensures
            r@ == self@ & !other@,
    {
        proof {
            use_type_invariant(self);
            bits::lemma_i64_and_within(self.bits, !other.bits, NSWindowOrderingModeKnownBits);
        }
        NSWindowOrderingMode { bits: self.bits & !other.bits }
    }

    /// The flags of exactly one of the two sets.
    pub fn symmetric_difference(&self, other: &Self) -> (r: Self)
        ensures
            r@ == self@ ^ other@,
    {
        proof {
            use_type_invariant(self);
            use_type_invariant(other);
            bits::lemma_i64_xor_within(self.bits, other.bits, NSWindowOrderingModeKnownBits);
        }
        NSWindowOrderingMode { bits: self.bits ^ other.bits }
    }

    /// The known flags that are not in `self`.
    pub fn complement(&self) -> (r: Self)
        ensures
            r@ == !self@ & NSWindowOrderingModeKnownBits,
    {
        proof {
            bits::lemma_i64_and_mask_within(!self.bits, NSWindowOrderingModeKnownBits);
        }
        NSWindowOrderingMode { bits: !self.bits & NSWindowOrderingModeKnownBits }
    }

    /// Sets the flags of `other`.
    pub fn insert(&mut self, other: Self)
        ensures
            final(self)@ == old(self)@ | other@,
    {
        *self = self.union(&other);
    }

    /// Clears the flags of `other`.
    pub fn remove(&mut self, other: Self)
        ensures
            final(self)@ == old(self)@ & !other@,
    {
        *self = self.difference(&other);
    }

    /// Flips the flags of `other`.
    pub fn toggle(&mut self, other: Self)
        ensures
            final(self)@ == old(self)@ ^ other@,
    {
        *self = self.symmetric_difference(&other);
    }
}

pub const NSAlignMinXInward: u64 = 1 << 0;
pub const NSAlignMinYInward: u64 = 1 << 1;
pub const NSAlignMaxXInward: u64 = 1 << 2;
pub const NSAlignMaxYInward: u64 = 1 << 3;
pub const NSAlignWidthInward: u64 = 1 << 4;
pub const NSAlignHeightInward: u64 = 1 << 5;
pub const NSAlignMinXOutward: u64 = 1 << 8;
pub const NSAlignMinYOutward: u64 = 1 << 9;
pub const NSAlignMaxXOutward: u64 = 1 << 10;
pub const NSAlignMaxYOutward: u64 = 1 << 11;
pub const NSAlignWidthOutward: u64 = 1 << 12;
pub const NSAlignHeightOutward: u64 = 1 << 13;
pub const NSAlignMinXNearest: u64 = 1 << 16;
pub const NSAlignMinYNearest: u64 = 1 << 17;
pub const NSAlignMaxXNearest: u64 = 1 << 18;
pub const NSAlignMaxYNearest: u64 = 1 << 19;
pub const NSAlignWidthNearest: u64 = 1 << 20;
pub const NSAlignHeightNearest: u64 = 1 << 21;
pub const NSAlignRectFlipped: u64 = 1 << 63;
/// Every edge rounded inward.
pub const NSAlignAllEdgesInward: u64 = NSAlignMinXInward | NSAlignMaxXInward | NSAlignMinYInward | NSAlignMaxYInward;
/// Every edge rounded outward.
pub const NSAlignAllEdgesOutward: u64 = NSAlignMinXOutward | NSAlignMaxXOutward | NSAlignMinYOutward | NSAlignMaxYOutward;
/// Every edge rounded to the nearest pixel.
pub const NSAlignAllEdgesNearest: u64 = NSAlignMinXNearest | NSAlignMaxXNearest | NSAlignMinYNearest | NSAlignMaxYNearest;

/// Every bit that an alignment option set may hold.
pub const NSAlignmentOptionsKnownBits: u64 =
    NSAlignMinXInward
    | NSAlignMinYInward
    | NSAlignMaxXInward
    | NSAlignMaxYInward
    | NSAlignWidthInward
    | NSAlignHeightInward
    | NSAlignMinXOutward
    | NSAlignMinYOutward
    | NSAlignMaxXOutward
    | NSAlignMaxYOutward
    | NSAlignWidthOutward
    | NSAlignHeightOutward
    | NSAlignMinXNearest
    | NSAlignMinYNearest
    | NSAlignMaxXNearest
    | NSAlignMaxYNearest
    | NSAlignWidthNearest
    | NSAlignHeightNearest
    | NSAlignRectFlipped
    | NSAlignAllEdgesInward
    | NSAlignAllEdgesOutward
    | NSAlignAllEdgesNearest;

/// How the edges of a rectangle are rounded to whole pixels.
///
/// A value holds only bits of [`NSAlignmentOptionsKnownBits`].
#[derive(Clone, Copy, Debug, PartialEq, Eq, Structural, Hash)]
pub struct NSAlignmentOptions {
    bits: u64,
}

impl View for NSAlignmentOptions {
    type V = u64;

    closed spec fn view(&self) -> u64 {
        self.bits
    }
}

impl NSAlignmentOptions {
    #[verifier::type_invariant]
    closed spec fn within_known_bits(self) -> bool {
        self.bits & !NSAlignmentOptionsKnownBits == 0
    }

    /// The set with no flag.
    pub fn empty() -> (r: Self)
        ensures
            r@ == 0,
    {
        proof {
            bits::lemma_u64_zero_within(NSAlignmentOptionsKnownBits);
        }
        NSAlignmentOptions { bits: 0 }
    }

    /// The set with every known flag.
    pub fn all() -> (r: Self)
        ensures
            r@ == NSAlignmentOptionsKnownBits,
    {
        proof {
            bits::lemma_u64_mask_within(NSAlignmentOptionsKnownBits);
        }
        NSAlignmentOptions { bits: NSAlignmentOptionsKnownBits }
    }

    /// The raw bits of the set; they are all known bits.
    pub fn bits(&self) -> (r: u64)
        ensures
            r == self@,
            r & !NSAlignmentOptionsKnownBits == 0,
    {
        proof {
            use_type_invariant(self);
        }
        self.bits
    }

    /// The set with exactly the bits `b`, unless `b` holds an unknown bit.
    pub fn from_bits(b: u64) -> (r: Option<Self>)
        ensures
            r is Some <==> b & !NSAlignmentOptionsKnownBits == 0,
            r matches Some(f) ==> f@ == b,
    {
        if b & !NSAlignmentOptionsKnownBits == 0 {
            Some(NSAlignmentOptions { bits: b })
        } else {
            None
        }
    }

    /// The set with the known bits of `b`; the others are dropped.
    pub fn from_bits_truncate(b: u64) -> (r: Self)
        ensures
            r@ == b & NSAlignmentOptionsKnownBits,
    {
        proof {
            bits::lemma_u64_and_mask_within(b, NSAlignmentOptionsKnownBits);
        }
        NSAlignmentOptions { bits: b & NSAlignmentOptionsKnownBits }
    }

    /// Whether no flag is set.
    pub fn is_empty(&self) -> (r: bool)
        ensures
            r == (self@ == 0),
    {
        self.bits == 0
    }

    /// Whether every known flag is set.
    pub fn is_all(&self) -> (r: bool)
        ensures
            r == (self@ == NSAlignmentOptionsKnownBits),
    {
        self.bits == NSAlignmentOptionsKnownBits
    }

    /// Whether the two sets share a flag.
    pub fn intersects(&self, other: &Self) -> (r: bool)
        ensures
            r == (self@ & other@ != 0),
    {
        self.bits & other.bits != 0
    }

    /// Whether every flag of `other` is set in `self`.
    pub fn contains(&self, other: &Self) -> (r: bool)
        ensures
            r == (self@ & other@ == other@),
    {
        self.bits & other.bits == other.bits
    }

    /// The flags of either set.
    pub fn union(&self, other: &Self) -> (r: Self)
        ensures
            r@ == self@ | other@,
    {
        proof {
            use_type_invariant(self);
            use_type_invariant(other);
            bits::lemma_u64_or_within(self.bits, other.bits, NSAlignmentOptionsKnownBits);
        }
        NSAlignmentOptions { bits: self.bits | other.bits }
    }

    /// The flags of both sets.
    pub fn intersection(&self, other: &Self) -> (r: Self)
        ensures
            r@ == self@ & other@,
    {
        proof {
            use_type_invariant(self);
            bits::lemma_u64_and_within(self.bits, other.bits, NSAlignmentOptionsKnownBits);
        }
        NSAlignmentOptions { bits: self.bits & other.bits }
    }

    /// The flags of `self` that are not in `other`.
    pub fn difference(&self, other: &Self) -> (r: Self)
        ensures
            r@ == self@ & !other@,
    {
        proof {
            use_type_invariant(self);
            bits::lemma_u64_and_within(self.bits, !other.bits, NSAlignmentOptionsKnownBits);
        }
        NSAlignmentOptions { bits: self.bits & !other.bits }
    }

    /// The flags of exactly one of the two sets.
    pub fn symmetric_difference(&self, other: &Self) -> (r: Self)
        ensures
            r@ == self@ ^ other@,
    {
        proof {
            use_type_invariant(self);
            use_type_invariant(other);
            bits::lemma_u64_xor_within(self.bits, other.bits, NSAlignmentOptionsKnownBits);
        }
        NSAlignmentOptions { bits: self.bits ^ other.bits }
    }

    /// The known flags that are not in `self`.
    pub fn complement(&self) -> (r: Self)
        ensures
            r@ == !self@ & NSAlignmentOptionsKnownBits,
    {
        proof {
            bits::lemma_u64_and_mask_within(!self.bits, NSAlignmentOptionsKnownBits);
        }
        NSAlignmentOptions { bits: !self.bits & NSAlignmentOptionsKnownBits }
    }

    /// Sets the flags of `other`.
    pub fn insert(&mut self, other: Self)
        ensures
            final(self)@ == old(self)@ | other@,
    {
        *self = self.union(&other);
    }

    /// Clears the flags of `other`.
    pub fn remove(&mut self, other: Self)
        ensures
            final(self)@ == old(self)@ & !other@,
    {
        *self = self.difference(&other);
    }

    /// Flips the flags of `other`.
    pub fn toggle(&mut self, other: Self)
        ensures
            final(self)@ == old(self)@ ^ other@,
    {
        *self = self.symmetric_difference(&other);
    }
}

pub const NSWindowCollectionBehaviorDefault: u64 = 0;
pub const NSWindowCollectionBehaviorCanJoinAllSpaces: u64 = 1 << 0;
pub const NSWindowCollectionBehaviorMoveToActiveSpace: u64 = 1 << 1;
pub const NSWindowCollectionBehaviorManaged: u64 = 1 << 2;
pub const NSWindowCollectionBehaviorTransient: u64 = 1 << 3;
pub const NSWindowCollectionBehaviorStationary: u64 = 1 << 4;
pub const NSWindowCollectionBehaviorParticipatesInCycle: u64 = 1 << 5;
pub const NSWindowCollectionBehaviorIgnoresCycle: u64 = 1 << 6;
pub const NSWindowCollectionBehaviorFullScreenPrimary: u64 = 1 << 7;
pub const NSWindowCollectionBehaviorFullScreenAuxiliary: u64 = 1 << 8;

/// Every bit that a collection behaviour may hold.
pub const NSWindowCollectionBehaviorKnownBits: u64 =
    NSWindowCollectionBehaviorDefault
    | NSWindowCollectionBehaviorCanJoinAllSpaces
    | NSWindowCollectionBehaviorMoveToActiveSpace
    | NSWindowCollectionBehaviorManaged
    | NSWindowCollectionBehaviorTransient
    | NSWindowCollectionBehaviorStationary
    | NSWindowCollectionBehaviorParticipatesInCycle
    | NSWindowCollectionBehaviorIgnoresCycle
    | NSWindowCollectionBehaviorFullScreenPrimary
    | NSWindowCollectionBehaviorFullScreenAuxiliary;

/// How a window takes part in Spaces, Exposé and full screen.
///
/// A value holds only bits of [`NSWindowCollectionBehaviorKnownBits`].
#[derive(Clone, Copy, Debug, PartialEq, Eq, Structural, Hash)]
pub struct NSWindowCollectionBehavior {
    bits: u64,
}

impl View for NSWindowCollectionBehavior {
    type V = u64;

    closed spec fn view(&self) -> u64 {
        self.bits
    }
}

impl NSWindowCollectionBehavior {
    #[verifier::type_invariant]
    closed spec fn within_known_bits(self) -> bool {
        self.bits & !NSWindowCollectionBehaviorKnownBits == 0
    }

    /// The set with no flag.
    pub fn empty() -> (r: Self)
        ensures
            r@ == 0,
    {
        proof {
            bits::lemma_u64_zero_within(NSWindowCollectionBehaviorKnownBits);
        }
        NSWindowCollectionBehavior { bits: 0 }
    }

    /// The set with every known flag.
    pub fn all() -> (r: Self)
        ensures
            r@ == NSWindowCollectionBehaviorKnownBits,
    {
        proof {
            bits::lemma_u64_mask_within(NSWindowCollectionBehaviorKnownBits);
        }
        NSWindowCollectionBehavior { bits: NSWindowCollectionBehaviorKnownBits }
    }

    /// The raw bits of the set; they are all known bits.
    pub fn bits(&self) -> (r: u64)
        ensures
            r == self@,
            r & !NSWindowCollectionBehaviorKnownBits == 0,
    {
        proof {
            use_type_invariant(self);
        }
        self.bits
    }

    /// The set with exactly the bits `b`, unless `b` holds an unknown bit.
    pub fn from_bits(b: u64) -> (r: Option<Self>)
        ensures
            r is Some <==> b & !NSWindowCollectionBehaviorKnownBits == 0,
            r matches Some(f) ==> f@ == b,
    {
        if b & !NSWindowCollectionBehaviorKnownBits == 0 {
            Some(NSWindowCollectionBehavior { bits: b })
        } else {
            None
        }
    }

    /// The set with the known bits of `b`; the others are dropped.
    pub fn from_bits_truncate(b: u64) -> (r: Self)
        ensures
            r@ == b & NSWindowCollectionBehaviorKnownBits,
    {
        proof {
            bits::lemma_u64_and_mask_within(b, NSWindowCollectionBehaviorKnownBits);
        }
        NSWindowCollectionBehavior { bits: b & NSWindowCollectionBehaviorKnownBits }
    }

    /// Whether no flag is set.
    pub fn is_empty(&self) -> (r: bool)
        ensures
            r == (self@ == 0),
    {
        self.bits == 0
    }

    /// Whether every known flag is set.
    pub fn is_all(&self) -> (r: bool)
        ensures
            r == (self@ == NSWindowCollectionBehaviorKnownBits),
    {
        self.bits == NSWindowCollectionBehaviorKnownBits
    }

    /// Whether the two sets share a flag.
    pub fn intersects(&self, other: &Self) -> (r: bool)
        ensures
            r == (self@ & other@ != 0),
    {
        self.bits & other.bits != 0
    }

    /// Whether every flag of `other` is set in `self`.
    pub fn contains(&self, other: &Self) -> (r: bool)
        ensures
            r == (self@ & other@ == other@),
    {
        self.bits & other.bits == other.bits
    }

    /// The flags of either set.
    pub fn union(&self, other: &Self) -> (r: Self)
        ensures
            r@ == self@ | other@,
    {
        proof {
            use_type_invariant(self);
            use_type_invariant(other);
            bits::lemma_u64_or_within(self.bits, other.bits, NSWindowCollectionBehaviorKnownBits);
        }
        NSWindowCollectionBehavior { bits: self.bits | other.bits }
    }

    /// The flags of both sets.
    pub fn intersection(&self, other: &Self) -> (r: Self)
        ensures
            r@ == self@ & other@,
    {
        proof {
            use_type_invariant(self);
            bits::lemma_u64_and_within(self.bits, other.bits, NSWindowCollectionBehaviorKnownBits);
        }
        NSWindowCollectionBehavior { bits: self.bits & other.bits }
    }

    /// The flags of `self` that are not in `other`.
    pub fn difference(&self, other: &Self) -> (r: Self)
        ensures
            r@ == self@ & !other@,
    {
        proof {
            use_type_invariant(self);
            bits::lemma_u64_and_within(self.bits, !other.bits, NSWindowCollectionBehaviorKnownBits);
        }
        NSWindowCollectionBehavior { bits: self.bits & !other.bits }
    }

    /// The flags of exactly one of the two sets.
    pub fn symmetric_difference(&self, other: &Self) -> (r: Self)
        ensures
            r@ == self@ ^ other@,
    {
        proof {
            use_type_invariant(self);
            use_type_invariant(other);
            bits::lemma_u64_xor_within(self.bits, other.bits, NSWindowCollectionBehaviorKnownBits);
        }
        NSWindowCollectionBehavior { bits: self.bits ^ other.bits }
    }

    /// The known flags that are not in `self`.
    pub fn complement(&self) -> (r: Self)
        ensures
            r@ == !self@ & NSWindowCollectionBehaviorKnownBits,
    {
        proof {
            bits::lemma_u64_and_mask_within(!self.bits, NSWindowCollectionBehaviorKnownBits);
        }
        NSWindowCollectionBehavior { bits: !self.bits & NSWindowCollectionBehaviorKnownBits }
    }

    /// Sets the flags of `other`.
    pub fn insert(&mut self, other: Self)
        ensures
            final(self)@ == old(self)@ | other@,
    {
        *self = self.union(&other);
    }

    /// Clears the flags of `other`.
    pub fn remove(&mut self, other: Self)
        ensures
            final(self)@ == old(self)@ & !other@,
    {
        *self = self.difference(&other);
    }

    /// Flips the flags of `other`.
    pub fn toggle(&mut self, other: Self)
        ensures
            final(self)@ == old(self)@ ^ other@,
    {
        *self = self.symmetric_difference(&other);
    }
}

pub const NSWindowOcclusionStateVisible: u64 = 1 << 1;

/// Every bit that an occlusion state may hold.
pub const NSWindowOcclusionStateKnownBits: u64 = NSWindowOcclusionStateVisible;

/// Whether any part of a window is visible.
///
/// A value holds only bits of [`NSWindowOcclusionStateKnownBits`].
#[derive(Clone, Copy, Debug, PartialEq, Eq, Structural, Hash)]
pub struct NSWindowOcclusionState {
    bits: u64,
}

impl View for NSWindowOcclusionState {
    type V = u64;

    closed spec fn view(&self) -> u64 {
        self.bits
    }
}

impl NSWindowOcclusionState {
    #[verifier::type_invariant]
    closed spec fn within_known_bits(self) -> bool {
        self.bits & !NSWindowOcclusionStateKnownBits == 0
    }

    /// The set with no flag.
    pub fn empty() -> (r: Self)
        ensures
            r@ == 0,
    {
        proof {
            bits::lemma_u64_zero_within(NSWindowOcclusionStateKnownBits);
        }
        NSWindowOcclusionState { bits: 0 }
    }

    /// The set with every known flag.
    pub fn all() -> (r: Self)
        ensures
            r@ == NSWindowOcclusionStateKnownBits,
    {
        proof {
            bits::lemma_u64_mask_within(NSWindowOcclusionStateKnownBits);
        }
        NSWindowOcclusionState { bits: NSWindowOcclusionStateKnownBits }
    }

    /// The raw bits of the set; they are all known bits.
    pub fn bits(&self) -> (r: u64)
        ensures
            r == self@,
            r & !NSWindowOcclusionStateKnownBits == 0,
    {
        proof {
            use_type_invariant(self);
        }
        self.bits
    }

    /// The set with exactly the bits `b`, unless `b` holds an unknown bit.
    pub fn from_bits(b: u64) -> (r: Option<Self>)
        ensures
            r is Some <==> b & !NSWindowOcclusionStateKnownBits == 0,
            r matches Some(f) ==> f@ == b,
    {
        if b & !NSWindowOcclusionStateKnownBits == 0 {
            Some(NSWindowOcclusionState { bits: b })
        } else {
            None
        }
    }

    /// The set with the known bits of `b`; the others are dropped.
    pub fn from_bits_truncate(b: u64) -> (r: Self)
        ensures
            r@ == b & NSWindowOcclusionStateKnownBits,
    {
        proof {
            bits::lemma_u64_and_mask_within(b, NSWindowOcclusionStateKnownBits);
        }
        NSWindowOcclusionState { bits: b & NSWindowOcclusionStateKnownBits }
    }

    /// Whether no flag is set.
    pub fn is_empty(&self) -> (r: bool)
        ensures
            r == (self@ == 0),
    {
        self.bits == 0
    }

    /// Whether every known flag is set.
    pub fn is_all(&self) -> (r: bool)
        ensures
            r == (self@ == NSWindowOcclusionStateKnownBits),
    {
        self.bits == NSWindowOcclusionStateKnownBits
    }

    /// Whether the two sets share a flag.
    pub fn intersects(&self, other: &Self) -> (r: bool)
        ensures
            r == (self@ & other@ != 0),
    {
        self.bits & other.bits != 0
    }

    /// Whether every flag of `other` is set in `self`.
    pub fn contains(&self, other: &Self) -> (r: bool)
        ensures
            r == (self@ & other@ == other@),
    {
        self.bits & other.bits == other.bits
    }

    /// The flags of either set.
    pub fn union(&self, other: &Self) -> (r: Self)
        ensures
            r@ == self@ | other@,
    {
        proof {
            use_type_invariant(self);
            use_type_invariant(other);
            bits::lemma_u64_or_within(self.bits, other.bits, NSWindowOcclusionStateKnownBits);
        }
        NSWindowOcclusionState { bits: self.bits | other.bits }
    }

    /// The flags of both sets.
    pub fn intersection(&self, other: &Self) -> (r: Self)
        ensures
            r@ == self@ & other@,
    {
        proof {
            use_type_invariant(self);
            bits::lemma_u64_and_within(self.bits, other.bits, NSWindowOcclusionStateKnownBits);
        }
        NSWindowOcclusionState { bits: self.bits & other.bits }
    }

    /// The flags of `self` that are not in `other`.
    pub fn difference(&self, other: &Self) -> (r: Self)
        ensures
            r@ == self@ & !other@,
    {
        proof {
            use_type_invariant(self);
            bits::lemma_u64_and_within(self.bits, !other.bits, NSWindowOcclusionStateKnownBits);
        }
        NSWindowOcclusionState { bits: self.bits & !other.bits }
    }

    /// The flags of exactly one of the two sets.
    pub fn symmetric_difference(&self, other: &Self) -> (r: Self)
        ensures
            r@ == self@ ^ other@,
    {
        proof {
            use_type_invariant(self);
            use_type_invariant(other);
            bits::lemma_u64_xor_within(self.bits, other.bits, NSWindowOcclusionStateKnownBits);
        }
        NSWindowOcclusionState { bits: self.bits ^ other.bits }
    }

    /// The known flags that are not in `self`.
    pub fn complement(&self) -> (r: Self)
        ensures
            r@ == !self@ & NSWindowOcclusionStateKnownBits,
    {
        proof {
            bits::lemma_u64_and_mask_within(!self.bits, NSWindowOcclusionStateKnownBits);
        }
        NSWindowOcclusionState { bits: !self.bits & NSWindowOcclusionStateKnownBits }
    }

    /// Sets the flags of `other`.
    pub fn insert(&mut self, other: Self)
        ensures
            final(self)@ == old(self)@ | other@,
    {
        *self = self.union(&other);
    }

    /// Clears the flags of `other`.
    pub fn remove(&mut self, other: Self)
        ensures
            final(self)@ == old(self)@ & !other@,
    {
        *self = self.difference(&other);
    }

    /// Flips the flags of `other`.
    pub fn toggle(&mut self, other: Self)
        ensures
            final(self)@ == old(self)@ ^ other@,
    {
        *self = self.symmetric_difference(&other);
    }
}

} // verus!
