use appkit::application::NSApplicationActivationPolicy;
use appkit::event::{
    NSAnyEventMask, NSCommandKeyMask, NSControlKeyMask, NSDeviceIndependentModifierFlagsMask,
    NSEventMask, NSEventMaskKnownBits, NSEventMaskPressure, NSEventModifierFlags, NSEventPhase,
    NSEventPhaseBegan, NSEventPhaseEnded, NSEventPhaseKnownBits, NSEventSwipeTrackingOptions,
    NSEventType, NSF1FunctionKey, NSF35FunctionKey, NSKeyDownMask, NSLeftMouseDownMask,
    NSModeSwitchFunctionKey, NSShiftKeyMask, NSTouchPhase, NSTouchPhaseAny, NSTouchPhaseBegan,
    NSTouchPhaseTouching, NSUpArrowFunctionKey,
};
use appkit::window::{
    NSAlignAllEdgesInward, NSAlignAllEdgesNearest, NSAlignAllEdgesOutward, NSAlignRectFlipped,
    NSAlignmentOptions, NSAlignmentOptionsKnownBits, NSMainMenuWindowLevel,
    NSWindowCollectionBehavior, NSWindowCollectionBehaviorKnownBits, NSWindowOcclusionState,
    NSWindowOrderingMode, NSWindowBelow,
};

#[test]
fn event_mask_from_type() {
    assert_eq!(NSEventMask::from_type(NSEventType::NSLeftMouseDown).bits(), NSLeftMouseDownMask);
    assert_eq!(NSEventMask::from_type(NSEventType::NSKeyDown).bits(), NSKeyDownMask);
    assert_eq!(NSEventMask::from_type(NSEventType::NSKeyDown).bits(), 1 << 10);
    assert_eq!(
        NSEventMask::from_type(NSEventType::NSEventTypePressure).bits(),
        NSEventMaskPressure
    );
    assert_eq!(NSEventMask::from_type(NSEventType::NSEventTypeMagnify).bits(), 1 << 30);
    assert_eq!(NSEventMask::from_type(NSEventType::NSEventTypeRotate).bits(), 1 << 18);
}

#[test]
fn event_mask_known_bits() {
    assert_eq!(NSAnyEventMask, 0xffff_ffff);
    assert_eq!(NSEventMaskKnownBits, 0x4_ffff_ffff);
    assert_eq!(NSEventMask::all().bits(), NSEventMaskKnownBits);
    assert!(NSEventMask::from_bits(1 << 33).is_none());
    assert_eq!(NSEventMask::from_bits(1 << 34).map(|m| m.bits()), Some(1 << 34));
    assert_eq!(NSEventMask::from_bits_truncate(u64::MAX).bits(), NSEventMaskKnownBits);
}

#[test]
fn modifier_flag_set_operations() {
    let shift = NSEventModifierFlags::from_bits(NSShiftKeyMask).unwrap();
    let command = NSEventModifierFlags::from_bits(NSCommandKeyMask).unwrap();
    let control = NSEventModifierFlags::from_bits(NSControlKeyMask).unwrap();
    let both = shift.union(&command);
    assert_eq!(both.bits(), (1 << 17) | (1 << 20));
    assert!(both.contains(&shift));
    assert!(both.contains(&command));
    assert!(!both.contains(&control));
    assert!(both.intersects(&shift));
    assert!(!both.intersects(&control));
    assert_eq!(both.intersection(&shift).bits(), NSShiftKeyMask);
    assert_eq!(both.difference(&shift).bits(), NSCommandKeyMask);
    assert_eq!(both.symmetric_difference(&control).bits(), both.bits() | NSControlKeyMask);
    assert_eq!(both.complement().bits(), NSDeviceIndependentModifierFlagsMask & !both.bits());
    assert!(NSEventModifierFlags::from_bits(1).is_none());
    assert_eq!(NSEventModifierFlags::from_bits_truncate(0x1_0001).bits(), 0x1_0000);
}

#[test]
fn modifier_flag_mutation() {
    let shift = NSEventModifierFlags::from_bits(NSShiftKeyMask).unwrap();
    let command = NSEventModifierFlags::from_bits(NSCommandKeyMask).unwrap();
    let mut f = NSEventModifierFlags::empty();
    assert!(f.is_empty());
    f.insert(shift);
    f.insert(command);
    assert_eq!(f.bits(), NSShiftKeyMask | NSCommandKeyMask);
    f.remove(shift);
    assert_eq!(f.bits(), NSCommandKeyMask);
    f.toggle(shift);
    f.toggle(command);
    assert_eq!(f.bits(), NSShiftKeyMask);
    assert!(NSEventModifierFlags::all().is_all());
    assert!(!f.is_all());
}

#[test]
fn phase_values() {
    assert_eq!(NSEventPhaseKnownBits, 0x3f);
    let p = NSEventPhase::from_bits(NSEventPhaseBegan | NSEventPhaseEnded).unwrap();
    assert_eq!(p.bits(), 0b1001);
    assert!(NSEventPhase::from_bits(0x40).is_none());
    assert_eq!(NSTouchPhaseTouching, 0b111);
    assert_eq!(NSTouchPhaseAny, u64::MAX);
    assert!(NSTouchPhase::all().is_all());
    assert!(NSTouchPhase::from_bits(u64::MAX).is_some());
    assert!(NSTouchPhase::from_bits(NSTouchPhaseTouching)
        .unwrap()
        .contains(&NSTouchPhase::from_bits(NSTouchPhaseBegan).unwrap()));
    assert_eq!(NSTouchPhase::from_bits(NSTouchPhaseBegan).unwrap().complement().bits(), !1u64);
    assert_eq!(NSEventSwipeTrackingOptions::all().bits(), 3);
    assert!(NSEventSwipeTrackingOptions::from_bits(4).is_none());
}

#[test]
fn window_flag_values() {
    assert_eq!(NSAlignAllEdgesInward, 0b1111);
    assert_eq!(NSAlignAllEdgesOutward, 0b1111 << 8);
    assert_eq!(NSAlignAllEdgesNearest, 0b1111 << 16);
    assert_eq!(NSAlignRectFlipped, 1 << 63);
    assert_eq!(NSAlignmentOptionsKnownBits, 0x8000_0000_003f_3f3f);
    assert!(NSAlignmentOptions::from_bits(1 << 6).is_none());
    assert_eq!(NSWindowCollectionBehaviorKnownBits, 0x1ff);
    assert!(NSWindowCollectionBehavior::empty().is_empty());
    assert_eq!(NSWindowOcclusionState::all().bits(), 2);
    assert!(NSWindowOcclusionState::from_bits(1).is_none());
    assert_eq!(NSWindowOrderingMode::all().bits(), -1);
    assert_eq!(NSWindowOrderingMode::from_bits(NSWindowBelow).map(|m| m.bits()), Some(-1));
    assert_eq!(NSMainMenuWindowLevel, 24);
}

#[test]
fn function_key_values() {
    assert_eq!(NSUpArrowFunctionKey, 0xF700);
    assert_eq!(NSF1FunctionKey, 0xF704);
    assert_eq!(NSF35FunctionKey, 0xF726);
    assert_eq!(NSModeSwitchFunctionKey, 0xF747);
}

#[test]
fn unknown_native_value_is_rejected() {
    assert_eq!(NSApplicationActivationPolicy::from_raw(i64::MIN), None);
}
