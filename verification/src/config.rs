//! What a request for a virtual machine says, as far as the payload depends
//! on it.

use crate::apex::ApexConfig;
use vstd::prelude::*;

verus! {

/// How much of the guest is open to debugging.
#[allow(non_camel_case_types)]
#[derive(Clone, Copy, Debug, PartialEq, Eq, Structural)]
pub enum DebugLevel {
    /// Not debuggable at all.
    NONE,
    /// Fully debuggable.
    FULL,
    /// A level that this library does not know, by its number.
    UNKNOWN(i32),
}

/// The debug policy of one virtual machine.
#[derive(Clone, Copy, Debug, PartialEq, Eq, Structural)]
pub struct DebugConfig {
    pub debug_level: DebugLevel,
    /// Whether the host's debug policy switches the debug bridge on, whatever
    /// the level.
    pub debug_policy_adb: bool,
}

impl DebugConfig {
    /// The policy of a host without a debug policy of its own.
    pub fn new_with_debug_level(debug_level: DebugLevel) -> (r: DebugConfig)
        ensures
            r == (DebugConfig { debug_level, debug_policy_adb: false }),
    {
        DebugConfig { debug_level, debug_policy_adb: false }
    }

    pub open spec fn spec_should_include_debug_apexes(&self) -> bool {
        self.debug_level != DebugLevel::NONE || self.debug_policy_adb
    }

    /// Whether the guest gets the modules that only debugging needs.
    #[verifier::when_used_as_spec(spec_should_include_debug_apexes)]
    pub fn should_include_debug_apexes(&self) -> (r: bool)
        ensures
            r == self.spec_should_include_debug_apexes(),
    {
        match self.debug_level {
            DebugLevel::NONE => self.debug_policy_adb,
            _ => true,
        }
    }
}

/// An extra application package of the payload.
#[derive(Clone, Debug, Default, PartialEq, Eq)]
pub struct ApkConfig {
    pub path: String,
}

/// The payload configuration found inside the application package.
#[derive(Clone, Debug, Default, PartialEq, Eq)]
pub struct VmPayloadConfig {
    pub apexes: Vec<ApexConfig>,
    pub extra_apks: Vec<ApkConfig>,
    pub prefer_staged: bool,
}

/// A payload given by the name of its binary.
#[derive(Clone, Debug, Default, PartialEq, Eq)]
pub struct VirtualMachinePayloadConfig {
    pub payload_binary_name: String,
    /// The extra application packages, by path.
    pub extra_apks: Vec<String>,
}

/// How the request names its payload.
#[derive(Clone, Debug, PartialEq, Eq)]
pub enum Payload {
    /// By the path of a configuration file inside the application package.
    ConfigPath(String),
    /// By the name of the payload binary.
    PayloadConfig(VirtualMachinePayloadConfig),
}

/// The request for a virtual machine that runs an application's payload.
#[derive(Clone, Debug, PartialEq, Eq)]
pub struct VirtualMachineAppConfig {
    pub payload: Payload,
    pub debug_level: DebugLevel,
    /// How many signatures of extra application packages come with the
    /// request.
    pub extra_idsigs: usize,
}

} // verus!
