//! The constant tables of AppKit: the enumerations and bit masks whose exact
//! native values a caller hands to the framework, each with its conversions
//! to and from those values.

#![allow(non_upper_case_globals)]
#![allow(non_snake_case)]

mod bits;
pub mod application;
pub mod window;
pub mod opengl;
pub mod event;

pub use application::{
    NSApplicationActivationOptions, NSApplicationActivationPolicy, NSApplicationTerminateReply,
};
pub use window::{
    NSAlignmentOptions, NSBackingStoreType, NSWindowButton, NSWindowCollectionBehavior, NSWindowMask,
    NSWindowOcclusionState, NSWindowOrderingMode, NSWindowTitleVisibility,
};
pub use opengl::{NSOpenGLContextParameter, NSOpenGLPFAOpenGLProfiles, NSOpenGLPixelFormatAttribute};
pub use event::{
    NSEventButtonMask, NSEventGestureAxis, NSEventMask, NSEventModifierFlags, NSEventPhase,
    NSEventSubtype, NSEventSwipeTrackingOptions, NSEventType, NSPointingDeviceType, NSTouchPhase,
};
