//! OpenGL pixel formats, profiles and context parameters.

use vstd::prelude::*;

verus! {

/// An OpenGL integer, as the context parameters are read and written.
pub type GLint = i32;

/// The keys of a pixel format's attribute list.
#[derive(Clone, Copy, Debug, PartialEq, Eq, Structural)]
pub enum NSOpenGLPixelFormatAttribute {
    NSOpenGLPFAAllRenderers,
    NSOpenGLPFATripleBuffer,
    NSOpenGLPFADoubleBuffer,
    NSOpenGLPFAStereo,
    NSOpenGLPFAAuxBuffers,
    NSOpenGLPFAColorSize,
    NSOpenGLPFAAlphaSize,
    NSOpenGLPFADepthSize,
    NSOpenGLPFAStencilSize,
    NSOpenGLPFAAccumSize,
    NSOpenGLPFAMinimumPolicy,
    NSOpenGLPFAMaximumPolicy,
    NSOpenGLPFAOffScreen,
    NSOpenGLPFAFullScreen,
    NSOpenGLPFASampleBuffers,
    NSOpenGLPFASamples,
    NSOpenGLPFAAuxDepthStencil,
    NSOpenGLPFAColorFloat,
    NSOpenGLPFAMultisample,
    NSOpenGLPFASupersample,
    NSOpenGLPFASampleAlpha,
    NSOpenGLPFARendererID,
    NSOpenGLPFASingleRenderer,
    NSOpenGLPFANoRecovery,
    NSOpenGLPFAAccelerated,
    NSOpenGLPFAClosestPolicy,
    NSOpenGLPFARobust,
    NSOpenGLPFABackingStore,
    NSOpenGLPFAMPSafe,
    NSOpenGLPFAWindow,
    NSOpenGLPFAMultiScreen,
    NSOpenGLPFACompliant,
    NSOpenGLPFAScreenMask,
    NSOpenGLPFAPixelBuffer,
    NSOpenGLPFARemotePixelBuffer,
    NSOpenGLPFAAllowOfflineRenderers,
    NSOpenGLPFAAcceleratedCompute,
    NSOpenGLPFAOpenGLProfile,
    NSOpenGLPFAVirtualScreenCount,
}

impl NSOpenGLPixelFormatAttribute {
    /// The value AppKit uses for this member.
    pub open spec fn value(self) -> u64 {
        match self {
            NSOpenGLPixelFormatAttribute::NSOpenGLPFAAllRenderers => 1u64,
            NSOpenGLPixelFormatAttribute::NSOpenGLPFATripleBuffer => 3u64,
            NSOpenGLPixelFormatAttribute::NSOpenGLPFADoubleBuffer => 5u64,
            NSOpenGLPixelFormatAttribute::NSOpenGLPFAStereo => 6u64,
            NSOpenGLPixelFormatAttribute::NSOpenGLPFAAuxBuffers => 7u64,
            NSOpenGLPixelFormatAttribute::NSOpenGLPFAColorSize => 8u64,
            NSOpenGLPixelFormatAttribute::NSOpenGLPFAAlphaSize => 11u64,
            NSOpenGLPixelFormatAttribute::NSOpenGLPFADepthSize => 12u64,
            NSOpenGLPixelFormatAttribute::NSOpenGLPFAStencilSize => 13u64,
            NSOpenGLPixelFormatAttribute::NSOpenGLPFAAccumSize => 14u64,
            NSOpenGLPixelFormatAttribute::NSOpenGLPFAMinimumPolicy => 51u64,
            NSOpenGLPixelFormatAttribute::NSOpenGLPFAMaximumPolicy => 52u64,
            NSOpenGLPixelFormatAttribute::NSOpenGLPFAOffScreen => 53u64,
            NSOpenGLPixelFormatAttribute::NSOpenGLPFAFullScreen => 54u64,
            NSOpenGLPixelFormatAttribute::NSOpenGLPFASampleBuffers => 55u64,
            NSOpenGLPixelFormatAttribute::NSOpenGLPFASamples => 56u64,
            NSOpenGLPixelFormatAttribute::NSOpenGLPFAAuxDepthStencil => 57u64,
            NSOpenGLPixelFormatAttribute::NSOpenGLPFAColorFloat => 58u64,
            NSOpenGLPixelFormatAttribute::NSOpenGLPFAMultisample => 59u64,
            NSOpenGLPixelFormatAttribute::NSOpenGLPFASupersample => 60u64,
            NSOpenGLPixelFormatAttribute::NSOpenGLPFASampleAlpha => 61u64,
            NSOpenGLPixelFormatAttribute::NSOpenGLPFARendererID => 70u64,
            NSOpenGLPixelFormatAttribute::NSOpenGLPFASingleRenderer => 71u64,
            NSOpenGLPixelFormatAttribute::NSOpenGLPFANoRecovery => 72u64,
            NSOpenGLPixelFormatAttribute::NSOpenGLPFAAccelerated => 73u64,
            NSOpenGLPixelFormatAttribute::NSOpenGLPFAClosestPolicy => 74u64,
            NSOpenGLPixelFormatAttribute::NSOpenGLPFARobust => 75u64,
            NSOpenGLPixelFormatAttribute::NSOpenGLPFABackingStore => 76u64,
            NSOpenGLPixelFormatAttribute::NSOpenGLPFAMPSafe => 78u64,
            NSOpenGLPixelFormatAttribute::NSOpenGLPFAWindow => 80u64,
            NSOpenGLPixelFormatAttribute::NSOpenGLPFAMultiScreen => 81u64,
            NSOpenGLPixelFormatAttribute::NSOpenGLPFACompliant => 83u64,
            NSOpenGLPixelFormatAttribute::NSOpenGLPFAScreenMask => 84u64,
            NSOpenGLPixelFormatAttribute::NSOpenGLPFAPixelBuffer => 90u64,
            NSOpenGLPixelFormatAttribute::NSOpenGLPFARemotePixelBuffer => 91u64,
            NSOpenGLPixelFormatAttribute::NSOpenGLPFAAllowOfflineRenderers => 96u64,
            NSOpenGLPixelFormatAttribute::NSOpenGLPFAAcceleratedCompute => 97u64,
            NSOpenGLPixelFormatAttribute::NSOpenGLPFAOpenGLProfile => 99u64,
            NSOpenGLPixelFormatAttribute::NSOpenGLPFAVirtualScreenCount => 128u64,
        }
    }

    /// The native value of this member, as AppKit expects it in a message.
    pub fn raw(&self) -> (r: u64)
        ensures
            r == self.value(),
    {
        match self {
            NSOpenGLPixelFormatAttribute::NSOpenGLPFAAllRenderers => 1u64,
            NSOpenGLPixelFormatAttribute::NSOpenGLPFATripleBuffer => 3u64,
            NSOpenGLPixelFormatAttribute::NSOpenGLPFADoubleBuffer => 5u64,
            NSOpenGLPixelFormatAttribute::NSOpenGLPFAStereo => 6u64,
            NSOpenGLPixelFormatAttribute::NSOpenGLPFAAuxBuffers => 7u64,
            NSOpenGLPixelFormatAttribute::NSOpenGLPFAColorSize => 8u64,
            NSOpenGLPixelFormatAttribute::NSOpenGLPFAAlphaSize => 11u64,
            NSOpenGLPixelFormatAttribute::NSOpenGLPFADepthSize => 12u64,
            NSOpenGLPixelFormatAttribute::NSOpenGLPFAStencilSize => 13u64,
            NSOpenGLPixelFormatAttribute::NSOpenGLPFAAccumSize => 14u64,
            NSOpenGLPixelFormatAttribute::NSOpenGLPFAMinimumPolicy => 51u64,
            NSOpenGLPixelFormatAttribute::NSOpenGLPFAMaximumPolicy => 52u64,
            NSOpenGLPixelFormatAttribute::NSOpenGLPFAOffScreen => 53u64,
            NSOpenGLPixelFormatAttribute::NSOpenGLPFAFullScreen => 54u64,
            NSOpenGLPixelFormatAttribute::NSOpenGLPFASampleBuffers => 55u64,
            NSOpenGLPixelFormatAttribute::NSOpenGLPFASamples => 56u64,
            NSOpenGLPixelFormatAttribute::NSOpenGLPFAAuxDepthStencil => 57u64,
            NSOpenGLPixelFormatAttribute::NSOpenGLPFAColorFloat => 58u64,
            NSOpenGLPixelFormatAttribute::NSOpenGLPFAMultisample => 59u64,
            NSOpenGLPixelFormatAttribute::NSOpenGLPFASupersample => 60u64,
            NSOpenGLPixelFormatAttribute::NSOpenGLPFASampleAlpha => 61u64,
            NSOpenGLPixelFormatAttribute::NSOpenGLPFARendererID => 70u64,
            NSOpenGLPixelFormatAttribute::NSOpenGLPFASingleRenderer => 71u64,
            NSOpenGLPixelFormatAttribute::NSOpenGLPFANoRecovery => 72u64,
            NSOpenGLPixelFormatAttribute::NSOpenGLPFAAccelerated => 73u64,
            NSOpenGLPixelFormatAttribute::NSOpenGLPFAClosestPolicy => 74u64,
            NSOpenGLPixelFormatAttribute::NSOpenGLPFARobust => 75u64,
            NSOpenGLPixelFormatAttribute::NSOpenGLPFABackingStore => 76u64,
            NSOpenGLPixelFormatAttribute::NSOpenGLPFAMPSafe => 78u64,
            NSOpenGLPixelFormatAttribute::NSOpenGLPFAWindow => 80u64,
            NSOpenGLPixelFormatAttribute::NSOpenGLPFAMultiScreen => 81u64,
            NSOpenGLPixelFormatAttribute::NSOpenGLPFACompliant => 83u64,
            NSOpenGLPixelFormatAttribute::NSOpenGLPFAScreenMask => 84u64,
            NSOpenGLPixelFormatAttribute::NSOpenGLPFAPixelBuffer => 90u64,
            NSOpenGLPixelFormatAttribute::NSOpenGLPFARemotePixelBuffer => 91u64,
            NSOpenGLPixelFormatAttribute::NSOpenGLPFAAllowOfflineRenderers => 96u64,
            NSOpenGLPixelFormatAttribute::NSOpenGLPFAAcceleratedCompute => 97u64,
            NSOpenGLPixelFormatAttribute::NSOpenGLPFAOpenGLProfile => 99u64,
            NSOpenGLPixelFormatAttribute::NSOpenGLPFAVirtualScreenCount => 128u64,
        }
    }

    /// The member whose native value is `v`, if there is one.
    pub fn from_raw(v: u64) -> (r: Option<NSOpenGLPixelFormatAttribute>)
        ensures
            r matches Some(e) ==> e.value() == v,
            forall|e: NSOpenGLPixelFormatAttribute| #[trigger] e.value() == v ==> r == Some(e),
    {
        if v == 1u64 {
            Some(NSOpenGLPixelFormatAttribute::NSOpenGLPFAAllRenderers)
        } else if v == 3u64 {
            Some(NSOpenGLPixelFormatAttribute::NSOpenGLPFATripleBuffer)
        } else if v == 5u64 {
            Some(NSOpenGLPixelFormatAttribute::NSOpenGLPFADoubleBuffer)
        } else if v == 6u64 {
            Some(NSOpenGLPixelFormatAttribute::NSOpenGLPFAStereo)
        } else if v == 7u64 {
            Some(NSOpenGLPixelFormatAttribute::NSOpenGLPFAAuxBuffers)
        } else if v == 8u64 {
            Some(NSOpenGLPixelFormatAttribute::NSOpenGLPFAColorSize)
        } else if v == 11u64 {
            Some(NSOpenGLPixelFormatAttribute::NSOpenGLPFAAlphaSize)
        } else if v == 12u64 {
            Some(NSOpenGLPixelFormatAttribute::NSOpenGLPFADepthSize)
        } else if v == 13u64 {
            Some(NSOpenGLPixelFormatAttribute::NSOpenGLPFAStencilSize)
        } else if v == 14u64 {
            Some(NSOpenGLPixelFormatAttribute::NSOpenGLPFAAccumSize)
        } else if v == 51u64 {
            Some(NSOpenGLPixelFormatAttribute::NSOpenGLPFAMinimumPolicy)
        } else if v == 52u64 {
            Some(NSOpenGLPixelFormatAttribute::NSOpenGLPFAMaximumPolicy)
        } else if v == 53u64 {
            Some(NSOpenGLPixelFormatAttribute::NSOpenGLPFAOffScreen)
        } else if v == 54u64 {
            Some(NSOpenGLPixelFormatAttribute::NSOpenGLPFAFullScreen)
        } else if v == 55u64 {
            Some(NSOpenGLPixelFormatAttribute::NSOpenGLPFASampleBuffers)
        } else if v == 56u64 {
            Some(NSOpenGLPixelFormatAttribute::NSOpenGLPFASamples)
        } else if v == 57u64 {
            Some(NSOpenGLPixelFormatAttribute::NSOpenGLPFAAuxDepthStencil)
        } else if v == 58u64 {
            Some(NSOpenGLPixelFormatAttribute::NSOpenGLPFAColorFloat)
        } else if v == 59u64 {
            Some(NSOpenGLPixelFormatAttribute::NSOpenGLPFAMultisample)
        } else if v == 60u64 {
            Some(NSOpenGLPixelFormatAttribute::NSOpenGLPFASupersample)
        } else if v == 61u64 {
            Some(NSOpenGLPixelFormatAttribute::NSOpenGLPFASampleAlpha)
        } else if v == 70u64 {
            Some(NSOpenGLPixelFormatAttribute::NSOpenGLPFARendererID)
        } else if v == 71u64 {
            Some(NSOpenGLPixelFormatAttribute::NSOpenGLPFASingleRenderer)
        } else if v == 72u64 {
            Some(NSOpenGLPixelFormatAttribute::NSOpenGLPFANoRecovery)
        } else if v == 73u64 {
            Some(NSOpenGLPixelFormatAttribute::NSOpenGLPFAAccelerated)
        } else if v == 74u64 {
            Some(NSOpenGLPixelFormatAttribute::NSOpenGLPFAClosestPolicy)
        } else if v == 75u64 {
            Some(NSOpenGLPixelFormatAttribute::NSOpenGLPFARobust)
        } else if v == 76u64 {
            Some(NSOpenGLPixelFormatAttribute::NSOpenGLPFABackingStore)
        } else if v == 78u64 {
            Some(NSOpenGLPixelFormatAttribute::NSOpenGLPFAMPSafe)
        } else if v == 80u64 {
            Some(NSOpenGLPixelFormatAttribute::NSOpenGLPFAWindow)
        } else if v == 81u64 {
            Some(NSOpenGLPixelFormatAttribute::NSOpenGLPFAMultiScreen)
        } else if v == 83u64 {
            Some(NSOpenGLPixelFormatAttribute::NSOpenGLPFACompliant)
        } else if v == 84u64 {
            Some(NSOpenGLPixelFormatAttribute::NSOpenGLPFAScreenMask)
        } else if v == 90u64 {
            Some(NSOpenGLPixelFormatAttribute::NSOpenGLPFAPixelBuffer)
        } else if v == 91u64 {
            Some(NSOpenGLPixelFormatAttribute::NSOpenGLPFARemotePixelBuffer)
        } else if v == 96u64 {
            Some(NSOpenGLPixelFormatAttribute::NSOpenGLPFAAllowOfflineRenderers)
        } else if v == 97u64 {
            Some(NSOpenGLPixelFormatAttribute::NSOpenGLPFAAcceleratedCompute)
        } else if v == 99u64 {
            Some(NSOpenGLPixelFormatAttribute::NSOpenGLPFAOpenGLProfile)
        } else if v == 128u64 {
            Some(NSOpenGLPixelFormatAttribute::NSOpenGLPFAVirtualScreenCount)
        } else {
            None
        }
    }

    /// Distinct members have distinct native values.
    pub proof fn lemma_value_injective(a: NSOpenGLPixelFormatAttribute, b: NSOpenGLPixelFormatAttribute)
        ensures
            a.value() == b.value() ==> a == b,
    {
    }
}

#[allow(non_camel_case_types)]
/// The OpenGL profiles that a pixel format may ask for.
#[derive(Clone, Copy, Debug, PartialEq, Eq, Structural)]
pub enum NSOpenGLPFAOpenGLProfiles {
    NSOpenGLProfileVersionLegacy,
    NSOpenGLProfileVersion3_2Core,
    NSOpenGLProfileVersion4_1Core,
}

impl NSOpenGLPFAOpenGLProfiles {
    /// The value AppKit uses for this member.
    pub open spec fn value(self) -> u64 {
        match self {
            NSOpenGLPFAOpenGLProfiles::NSOpenGLProfileVersionLegacy => 0x1000u64,
            NSOpenGLPFAOpenGLProfiles::NSOpenGLProfileVersion3_2Core => 0x3200u64,
            NSOpenGLPFAOpenGLProfiles::NSOpenGLProfileVersion4_1Core => 0x4100u64,
        }
    }

    /// The native value of this member, as AppKit expects it in a message.
    pub fn raw(&self) -> (r: u64)
        ensures
            r == self.value(),
    {
        match self {
            NSOpenGLPFAOpenGLProfiles::NSOpenGLProfileVersionLegacy => 0x1000u64,
            NSOpenGLPFAOpenGLProfiles::NSOpenGLProfileVersion3_2Core => 0x3200u64,
            NSOpenGLPFAOpenGLProfiles::NSOpenGLProfileVersion4_1Core => 0x4100u64,
        }
    }

    /// The member whose native value is `v`, if there is one.
    pub fn from_raw(v: u64) -> (r: Option<NSOpenGLPFAOpenGLProfiles>)
        ensures
            r matches Some(e) ==> e.value() == v,
            forall|e: NSOpenGLPFAOpenGLProfiles| #[trigger] e.value() == v ==> r == Some(e),
    {
        if v == 0x1000u64 {
            Some(NSOpenGLPFAOpenGLProfiles::NSOpenGLProfileVersionLegacy)
        } else if v == 0x3200u64 {
            Some(NSOpenGLPFAOpenGLProfiles::NSOpenGLProfileVersion3_2Core)
        } else if v == 0x4100u64 {
            Some(NSOpenGLPFAOpenGLProfiles::NSOpenGLProfileVersion4_1Core)
        } else {
            None
        }
    }

    /// Distinct members have distinct native values.
    pub proof fn lemma_value_injective(a: NSOpenGLPFAOpenGLProfiles, b: NSOpenGLPFAOpenGLProfiles)
        ensures
            a.value() == b.value() ==> a == b,
    {
    }
}

/// The parameters of an OpenGL context that can be read and set.
#[derive(Clone, Copy, Debug, PartialEq, Eq, Structural)]
pub enum NSOpenGLContextParameter {
    NSOpenGLCPSwapInterval,
    NSOpenGLCPSurfaceOrder,
    NSOpenGLCPSurfaceOpacity,
    NSOpenGLCPSurfaceBackingSize,
    NSOpenGLCPReclaimResources,
    NSOpenGLCPCurrentRendererID,
    NSOpenGLCPGPUVertexProcessing,
    NSOpenGLCPGPUFragmentProcessing,
    NSOpenGLCPHasDrawable,
    NSOpenGLCPMPSwapsInFlight,
}

impl NSOpenGLContextParameter {
    /// The value AppKit uses for this member.
    pub open spec fn value(self) -> u64 {
        match self {
            NSOpenGLContextParameter::NSOpenGLCPSwapInterval => 222u64,
            NSOpenGLContextParameter::NSOpenGLCPSurfaceOrder => 235u64,
            NSOpenGLContextParameter::NSOpenGLCPSurfaceOpacity => 236u64,
            NSOpenGLContextParameter::NSOpenGLCPSurfaceBackingSize => 304u64,
            NSOpenGLContextParameter::NSOpenGLCPReclaimResources => 308u64,
            NSOpenGLContextParameter::NSOpenGLCPCurrentRendererID => 309u64,
            NSOpenGLContextParameter::NSOpenGLCPGPUVertexProcessing => 310u64,
            NSOpenGLContextParameter::NSOpenGLCPGPUFragmentProcessing => 311u64,
            NSOpenGLContextParameter::NSOpenGLCPHasDrawable => 314u64,
            NSOpenGLContextParameter::NSOpenGLCPMPSwapsInFlight => 315u64,
        }
    }

    /// The native value of this member, as AppKit expects it in a message.
    pub fn raw(&self) -> (r: u64)
        ensures
            r == self.value(),
    {
        match self {
            NSOpenGLContextParameter::NSOpenGLCPSwapInterval => 222u64,
            NSOpenGLContextParameter::NSOpenGLCPSurfaceOrder => 235u64,
            NSOpenGLContextParameter::NSOpenGLCPSurfaceOpacity => 236u64,
            NSOpenGLContextParameter::NSOpenGLCPSurfaceBackingSize => 304u64,
            NSOpenGLContextParameter::NSOpenGLCPReclaimResources => 308u64,
            NSOpenGLContextParameter::NSOpenGLCPCurrentRendererID => 309u64,
            NSOpenGLContextParameter::NSOpenGLCPGPUVertexProcessing => 310u64,
            NSOpenGLContextParameter::NSOpenGLCPGPUFragmentProcessing => 311u64,
            NSOpenGLContextParameter::NSOpenGLCPHasDrawable => 314u64,
            NSOpenGLContextParameter::NSOpenGLCPMPSwapsInFlight => 315u64,
        }
    }

    /// The member whose native value is `v`, if there is one.
    pub fn from_raw(v: u64) -> (r: Option<NSOpenGLContextParameter>)
        ensures
            r matches Some(e) ==> e.value() == v,
            forall|e: NSOpenGLContextParameter| #[trigger] e.value() == v ==> r == Some(e),
    {
        if v == 222u64 {
            Some(NSOpenGLContextParameter::NSOpenGLCPSwapInterval)
        } else if v == 235u64 {
            Some(NSOpenGLContextParameter::NSOpenGLCPSurfaceOrder)
        } else if v == 236u64 {
            Some(NSOpenGLContextParameter::NSOpenGLCPSurfaceOpacity)
        } else if v == 304u64 {
            Some(NSOpenGLContextParameter::NSOpenGLCPSurfaceBackingSize)
        } else if v == 308u64 {
            Some(NSOpenGLContextParameter::NSOpenGLCPReclaimResources)
        } else if v == 309u64 {
            Some(NSOpenGLContextParameter::NSOpenGLCPCurrentRendererID)
        } else if v == 310u64 {
            Some(NSOpenGLContextParameter::NSOpenGLCPGPUVertexProcessing)
        } else if v == 311u64 {
            Some(NSOpenGLContextParameter::NSOpenGLCPGPUFragmentProcessing)
        } else if v == 314u64 {
            Some(NSOpenGLContextParameter::NSOpenGLCPHasDrawable)
        } else if v == 315u64 {
            Some(NSOpenGLContextParameter::NSOpenGLCPMPSwapsInFlight)
        } else {
            None
        }
    }

    /// Distinct members have distinct native values.
    pub proof fn lemma_value_injective(a: NSOpenGLContextParameter, b: NSOpenGLContextParameter)
        ensures
            a.value() == b.value() ==> a == b,
    {
    }
}

} // verus!
