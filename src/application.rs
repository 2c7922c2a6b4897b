//! Application activation and termination.

use vstd::prelude::*;

verus! {

/// How an application may be activated, and whether it shows in the Dock.
#[derive(Clone, Copy, Debug, PartialEq, Eq, Structural)]
pub enum NSApplicationActivationPolicy {
    NSApplicationActivationPolicyRegular,
    NSApplicationActivationPolicyAccessory,
    NSApplicationActivationPolicyProhibited,
    NSApplicationActivationPolicyERROR,
}

impl NSApplicationActivationPolicy {
    /// The value AppKit uses for this member.
    pub open spec fn value(self) -> i64 {
        match self {
            NSApplicationActivationPolicy::NSApplicationActivationPolicyRegular => 0i64,
            NSApplicationActivationPolicy::NSApplicationActivationPolicyAccessory => 1i64,
            NSApplicationActivationPolicy::NSApplicationActivationPolicyProhibited => 2i64,
            NSApplicationActivationPolicy::NSApplicationActivationPolicyERROR => -1i64,
        }
    }

    /// The native value of this member, as AppKit expects it in a message.
    pub fn raw(&self) -> (r: i64)
        ensures
            r == self.value(),
    {
        match self {
            NSApplicationActivationPolicy::NSApplicationActivationPolicyRegular => 0i64,
            NSApplicationActivationPolicy::NSApplicationActivationPolicyAccessory => 1i64,
            NSApplicationActivationPolicy::NSApplicationActivationPolicyProhibited => 2i64,
            NSApplicationActivationPolicy::NSApplicationActivationPolicyERROR => -1i64,
        }
    }

    /// The member whose native value is `v`, if there is one.
    pub fn from_raw(v: i64) -> (r: Option<NSApplicationActivationPolicy>)
        ensures
            r matches Some(e) ==> e.value() == v,
            forall|e: NSApplicationActivationPolicy| #[trigger] e.value() == v ==> r == Some(e),
    {
        if v == 0i64 {
            Some(NSApplicationActivationPolicy::NSApplicationActivationPolicyRegular)
        } else if v == 1i64 {
            Some(NSApplicationActivationPolicy::NSApplicationActivationPolicyAccessory)
        } else if v == 2i64 {
            Some(NSApplicationActivationPolicy::NSApplicationActivationPolicyProhibited)
        } else if v == -1i64 {
            Some(NSApplicationActivationPolicy::NSApplicationActivationPolicyERROR)
        } else {
            None
        }
    }

    /// Distinct members have distinct native values.
    pub proof fn lemma_value_injective(a: NSApplicationActivationPolicy, b: NSApplicationActivationPolicy)
        ensures
            a.value() == b.value() ==> a == b,
    {
    }
}

/// Options for activating a running application.
#[derive(Clone, Copy, Debug, PartialEq, Eq, Structural)]
pub enum NSApplicationActivationOptions {
    NSApplicationActivateAllWindows,
    NSApplicationActivateIgnoringOtherApps,
}

impl NSApplicationActivationOptions {
    /// The value AppKit uses for this member.
    pub open spec fn value(self) -> u64 {
        match self {
            NSApplicationActivationOptions::NSApplicationActivateAllWindows => 0x1u64,
            NSApplicationActivationOptions::NSApplicationActivateIgnoringOtherApps => 0x2u64,
        }
    }

    /// The native value of this member, as AppKit expects it in a message.
    pub fn raw(&self) -> (r: u64)
        ensures
            r == self.value(),
    {
        match self {
            NSApplicationActivationOptions::NSApplicationActivateAllWindows => 0x1u64,
            NSApplicationActivationOptions::NSApplicationActivateIgnoringOtherApps => 0x2u64,
        }
    }

    /// The member whose native value is `v`, if there is one.
    pub fn from_raw(v: u64) -> (r: Option<NSApplicationActivationOptions>)
        ensures
            r matches Some(e) ==> e.value() == v,
            forall|e: NSApplicationActivationOptions| #[trigger] e.value() == v ==> r == Some(e),
    {
        if v == 0x1u64 {
            Some(NSApplicationActivationOptions::NSApplicationActivateAllWindows)
        } else if v == 0x2u64 {
            Some(NSApplicationActivationOptions::NSApplicationActivateIgnoringOtherApps)
        } else {
            None
        }
    }

    /// Distinct members have distinct native values.
    pub proof fn lemma_value_injective(a: NSApplicationActivationOptions, b: NSApplicationActivationOptions)
        ensures
            a.value() == b.value() ==> a == b,
    {
    }
}

/// An application delegate's answer to a request to terminate.
#[derive(Clone, Copy, Debug, PartialEq, Eq, Structural)]
pub enum NSApplicationTerminateReply {
    NSTerminateCancel,
    NSTerminateNow,
    NSTerminateLater,
}

impl NSApplicationTerminateReply {
    /// The value AppKit uses for this member.
    pub open spec fn value(self) -> u64 {
        match self {
            NSApplicationTerminateReply::NSTerminateCancel => 0u64,
            NSApplicationTerminateReply::NSTerminateNow => 1u64,
            NSApplicationTerminateReply::NSTerminateLater => 2u64,
        }
    }

    /// The native value of this member, as AppKit expects it in a message.
    pub fn raw(&self) -> (r: u64)
        ensures
            r == self.value(),
    {
        match self {
            NSApplicationTerminateReply::NSTerminateCancel => 0u64,
            NSApplicationTerminateReply::NSTerminateNow => 1u64,
            NSApplicationTerminateReply::NSTerminateLater => 2u64,
        }
    }

    /// The member whose native value is `v`, if there is one.
    pub fn from_raw(v: u64) -> (r: Option<NSApplicationTerminateReply>)
        ensures
            r matches Some(e) ==> e.value() == v,
            forall|e: NSApplicationTerminateReply| #[trigger] e.value() == v ==> r == Some(e),
    {
        if v == 0u64 {
            Some(NSApplicationTerminateReply::NSTerminateCancel)
        } else if v == 1u64 {
            Some(NSApplicationTerminateReply::NSTerminateNow)
        } else if v == 2u64 {
            Some(NSApplicationTerminateReply::NSTerminateLater)
        } else {
            None
        }
    }

    /// Distinct members have distinct native values.
    pub proof fn lemma_value_injective(a: NSApplicationTerminateReply, b: NSApplicationTerminateReply)
        ensures
            a.value() == b.value() ==> a == b,
    {
    }
}

} // verus!
