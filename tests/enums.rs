use appkit::application::{
    NSApplicationActivationOptions, NSApplicationActivationPolicy, NSApplicationTerminateReply,
};
use appkit::event::{
    NSEventButtonMask, NSEventGestureAxis, NSEventSubtype, NSEventType, NSPointingDeviceType,
};
use appkit::opengl::{NSOpenGLContextParameter, NSOpenGLPFAOpenGLProfiles, NSOpenGLPixelFormatAttribute};
use appkit::window::{NSBackingStoreType, NSWindowButton, NSWindowMask, NSWindowTitleVisibility};

#[test]
fn activation_policy_values() {
    let all = [
        (NSApplicationActivationPolicy::NSApplicationActivationPolicyRegular, 0),
        (NSApplicationActivationPolicy::NSApplicationActivationPolicyAccessory, 1),
        (NSApplicationActivationPolicy::NSApplicationActivationPolicyProhibited, 2),
        (NSApplicationActivationPolicy::NSApplicationActivationPolicyERROR, -1),
    ];
    for (e, v) in all {
        assert_eq!(e.raw(), v);
        assert_eq!(NSApplicationActivationPolicy::from_raw(v), Some(e));
    }
    assert_eq!(NSApplicationActivationPolicy::from_raw(3), None);
    assert_eq!(NSApplicationActivationPolicy::from_raw(-2), None);
}

#[test]
fn activation_options_and_terminate_reply_values() {
    assert_eq!(NSApplicationActivationOptions::NSApplicationActivateAllWindows.raw(), 1);
    assert_eq!(NSApplicationActivationOptions::NSApplicationActivateIgnoringOtherApps.raw(), 2);
    assert_eq!(NSApplicationActivationOptions::from_raw(0), None);
    assert_eq!(NSApplicationActivationOptions::from_raw(3), None);
    assert_eq!(
        NSApplicationActivationOptions::from_raw(2),
        Some(NSApplicationActivationOptions::NSApplicationActivateIgnoringOtherApps)
    );
    assert_eq!(NSApplicationTerminateReply::NSTerminateCancel.raw(), 0);
    assert_eq!(NSApplicationTerminateReply::NSTerminateNow.raw(), 1);
    assert_eq!(NSApplicationTerminateReply::NSTerminateLater.raw(), 2);
    assert_eq!(
        NSApplicationTerminateReply::from_raw(1),
        Some(NSApplicationTerminateReply::NSTerminateNow)
    );
    assert_eq!(NSApplicationTerminateReply::from_raw(3), None);
}

#[test]
fn window_mask_values() {
    let all = [
        (NSWindowMask::NSBorderlessWindowMask, 0),
        (NSWindowMask::NSTitledWindowMask, 1),
        (NSWindowMask::NSClosableWindowMask, 2),
        (NSWindowMask::NSMiniaturizableWindowMask, 4),
        (NSWindowMask::NSResizableWindowMask, 8),
        (NSWindowMask::NSTexturedBackgroundWindowMask, 256),
        (NSWindowMask::NSUnifiedTitleAndToolbarWindowMask, 4096),
        (NSWindowMask::NSFullScreenWindowMask, 16384),
        (NSWindowMask::NSFullSizeContentViewWindowMask, 32768),
    ];
    for (e, v) in all {
        assert_eq!(e.raw(), v);
        assert_eq!(NSWindowMask::from_raw(v), Some(e));
    }
    assert_eq!(NSWindowMask::from_raw(3), None);
    assert_eq!(
        NSWindowMask::NSTitledWindowMask.raw() | NSWindowMask::NSClosableWindowMask.raw() | NSWindowMask::NSResizableWindowMask.raw(),
        11
    );
}

#[test]
fn window_small_enum_values() {
    assert_eq!(NSWindowTitleVisibility::NSWindowTitleVisible.raw(), 0);
    assert_eq!(NSWindowTitleVisibility::NSWindowTitleHidden.raw(), 1);
    assert_eq!(NSWindowTitleVisibility::from_raw(2), None);
    assert_eq!(NSBackingStoreType::NSBackingStoreRetained.raw(), 0);
    assert_eq!(NSBackingStoreType::NSBackingStoreNonretained.raw(), 1);
    assert_eq!(NSBackingStoreType::NSBackingStoreBuffered.raw(), 2);
    assert_eq!(
        NSBackingStoreType::from_raw(2),
        Some(NSBackingStoreType::NSBackingStoreBuffered)
    );
    assert_eq!(NSBackingStoreType::from_raw(3), None);
}

#[test]
fn window_button_values() {
    let all = [
        (NSWindowButton::NSWindowCloseButton, 0),
        (NSWindowButton::NSWindowMiniaturizeButton, 1),
        (NSWindowButton::NSWindowZoomButton, 2),
        (NSWindowButton::NSWindowToolbarButton, 3),
        (NSWindowButton::NSWindowDocumentIconButton, 4),
        (NSWindowButton::NSWindowDocumentVersionsButton, 6),
        (NSWindowButton::NSWindowFullScreenButton, 7),
    ];
    for (e, v) in all {
        assert_eq!(e.raw(), v);
        assert_eq!(NSWindowButton::from_raw(v), Some(e));
    }
    assert_eq!(NSWindowButton::from_raw(5), None);
    assert_eq!(NSWindowButton::from_raw(8), None);
}

#[test]
fn pixel_format_attribute_values() {
    assert_eq!(NSOpenGLPixelFormatAttribute::NSOpenGLPFAAllRenderers.raw(), 1);
    assert_eq!(NSOpenGLPixelFormatAttribute::NSOpenGLPFADoubleBuffer.raw(), 5);
    assert_eq!(NSOpenGLPixelFormatAttribute::NSOpenGLPFAColorSize.raw(), 8);
    assert_eq!(NSOpenGLPixelFormatAttribute::NSOpenGLPFADepthSize.raw(), 12);
    assert_eq!(NSOpenGLPixelFormatAttribute::NSOpenGLPFAMultisample.raw(), 59);
    assert_eq!(NSOpenGLPixelFormatAttribute::NSOpenGLPFAAccelerated.raw(), 73);
    assert_eq!(NSOpenGLPixelFormatAttribute::NSOpenGLPFAMPSafe.raw(), 78);
    assert_eq!(NSOpenGLPixelFormatAttribute::NSOpenGLPFAOpenGLProfile.raw(), 99);
    assert_eq!(NSOpenGLPixelFormatAttribute::NSOpenGLPFAVirtualScreenCount.raw(), 128);
    assert_eq!(NSOpenGLPixelFormatAttribute::from_raw(99), Some(NSOpenGLPixelFormatAttribute::NSOpenGLPFAOpenGLProfile));
    assert_eq!(NSOpenGLPixelFormatAttribute::from_raw(0), None);
    assert_eq!(NSOpenGLPixelFormatAttribute::from_raw(77), None);
    for v in 0u64..200 {
        if let Some(e) = NSOpenGLPixelFormatAttribute::from_raw(v) {
            assert_eq!(e.raw(), v);
        }
    }
}

#[test]
fn profile_and_context_parameter_values() {
    assert_eq!(NSOpenGLPFAOpenGLProfiles::NSOpenGLProfileVersionLegacy.raw(), 0x1000);
    assert_eq!(NSOpenGLPFAOpenGLProfiles::NSOpenGLProfileVersion3_2Core.raw(), 0x3200);
    assert_eq!(NSOpenGLPFAOpenGLProfiles::NSOpenGLProfileVersion4_1Core.raw(), 0x4100);
    assert_eq!(NSOpenGLPFAOpenGLProfiles::from_raw(0x3200), Some(NSOpenGLPFAOpenGLProfiles::NSOpenGLProfileVersion3_2Core));
    assert_eq!(NSOpenGLPFAOpenGLProfiles::from_raw(0x3300), None);
    assert_eq!(NSOpenGLContextParameter::NSOpenGLCPSwapInterval.raw(), 222);
    assert_eq!(NSOpenGLContextParameter::NSOpenGLCPSurfaceOrder.raw(), 235);
    assert_eq!(NSOpenGLContextParameter::NSOpenGLCPSurfaceOpacity.raw(), 236);
    assert_eq!(NSOpenGLContextParameter::NSOpenGLCPSurfaceBackingSize.raw(), 304);
    assert_eq!(NSOpenGLContextParameter::NSOpenGLCPMPSwapsInFlight.raw(), 315);
    assert_eq!(NSOpenGLContextParameter::from_raw(314), Some(NSOpenGLContextParameter::NSOpenGLCPHasDrawable));
    assert_eq!(NSOpenGLContextParameter::from_raw(312), None);
}

#[test]
fn event_type_values() {
    let all = [
        (NSEventType::NSLeftMouseDown, 1),
        (NSEventType::NSLeftMouseUp, 2),
        (NSEventType::NSRightMouseDown, 3),
        (NSEventType::NSRightMouseUp, 4),
        (NSEventType::NSMouseMoved, 5),
        (NSEventType::NSLeftMouseDragged, 6),
        (NSEventType::NSRightMouseDragged, 7),
        (NSEventType::NSMouseEntered, 8),
        (NSEventType::NSMouseExited, 9),
        (NSEventType::NSKeyDown, 10),
        (NSEventType::NSKeyUp, 11),
        (NSEventType::NSFlagsChanged, 12),
        (NSEventType::NSAppKitDefined, 13),
        (NSEventType::NSSystemDefined, 14),
        (NSEventType::NSApplicationDefined, 15),
        (NSEventType::NSPeriodic, 16),
        (NSEventType::NSCursorUpdate, 17),
        (NSEventType::NSEventTypeRotate, 18),
        (NSEventType::NSEventTypeBeginGesture, 19),
        (NSEventType::NSEventTypeEndGesture, 20),
        (NSEventType::NSScrollWheel, 22),
        (NSEventType::NSTabletPoint, 23),
        (NSEventType::NSTabletProximity, 24),
        (NSEventType::NSOtherMouseDown, 25),
        (NSEventType::NSOtherMouseUp, 26),
        (NSEventType::NSOtherMouseDragged, 27),
        (NSEventType::NSEventTypeGesture, 29),
        (NSEventType::NSEventTypeMagnify, 30),
        (NSEventType::NSEventTypeSwipe, 31),
        (NSEventType::NSEventTypePressure, 34),
    ];
    for (e, v) in all {
        assert_eq!(e.raw(), v);
        assert_eq!(NSEventType::from_raw(v), Some(e));
    }
    for v in [0u64, 21, 28, 32, 33, 35, u64::MAX] {
        assert_eq!(NSEventType::from_raw(v), None);
    }
}

#[test]
fn gesture_axis_and_subtype_values() {
    assert_eq!(NSEventGestureAxis::NSEventGestureAxisNone.raw(), 0);
    assert_eq!(NSEventGestureAxis::NSEventGestureAxisHorizontal.raw(), 1);
    assert_eq!(NSEventGestureAxis::NSEventGestureAxisVertical.raw(), 2);
    assert_eq!(NSEventGestureAxis::from_raw(-1), None);
    let all = [
        (NSEventSubtype::NSWindowExposedEventType, 0),
        (NSEventSubtype::NSApplicationActivatedEventType, 1),
        (NSEventSubtype::NSApplicationDeactivatedEventType, 2),
        (NSEventSubtype::NSWindowMovedEventType, 4),
        (NSEventSubtype::NSScreenChangedEventType, 8),
        (NSEventSubtype::NSAWTEventType, 16),
    ];
    for (e, v) in all {
        assert_eq!(e.raw(), v);
        assert_eq!(NSEventSubtype::from_raw(v), Some(e));
    }
    assert_eq!(NSEventSubtype::from_raw(3), None);
}

#[test]
fn tablet_values() {
    assert_eq!(NSPointingDeviceType::NSUnknownPointingDevice.raw(), 0);
    assert_eq!(NSPointingDeviceType::NSPenPointingDevice.raw(), 1);
    assert_eq!(NSPointingDeviceType::NSCursorPointingDevice.raw(), 2);
    assert_eq!(NSPointingDeviceType::NSEraserPointingDevice.raw(), 3);
    assert_eq!(NSPointingDeviceType::from_raw(4), None);
    assert_eq!(NSEventButtonMask::NSPenTipMask.raw(), 1);
    assert_eq!(NSEventButtonMask::NSPenLowerSideMask.raw(), 2);
    assert_eq!(NSEventButtonMask::NSPenUpperSideMask.raw(), 4);
    assert_eq!(NSEventButtonMask::from_raw(3), None);
}
