//! The description of one compilation target: 64-bit ARM Linux with the
//! OpenHarmony user space.

use vstd::prelude::*;

verus! {

/// How the stack is probed when a frame is larger than a page.
#[derive(Clone, Copy, Debug, PartialEq, Eq, Structural)]
pub enum StackProbeType {
    /// No probing.
    Off,
    /// Probes are emitted in line.
    Inline,
    /// A probing routine is called.
    Call,
}

/// How thread-local storage is reached.
#[derive(Clone, Copy, Debug, PartialEq, Eq, Structural)]
pub enum TlsModel {
    GeneralDynamic,
    LocalDynamic,
    InitialExec,
    LocalExec,
    Emulated,
}

/// A set of sanitizers.
#[derive(Clone, Copy, Debug, PartialEq, Eq, Structural)]
pub struct SanitizerSet {
    pub address: bool,
    pub leak: bool,
    pub memory: bool,
    pub thread: bool,
    pub hwaddress: bool,
    pub cfi: bool,
    pub memtag: bool,
    pub shadow_call_stack: bool,
    pub kcfi: bool,
    pub kernel_address: bool,
    pub safestack: bool,
    pub dataflow: bool,
}

impl SanitizerSet {
    /// The set without members.
    pub open spec fn empty_spec() -> SanitizerSet {
        SanitizerSet {
            address: false,
            leak: false,
            memory: false,
            thread: false,
            hwaddress: false,
            cfi: false,
            memtag: false,
            shadow_call_stack: false,
            kcfi: false,
            kernel_address: false,
            safestack: false,
            dataflow: false,
        }
    }

    /// The set without members.
    pub fn empty() -> (s: SanitizerSet)
        ensures
            s == Self::empty_spec(),
    {
        SanitizerSet {
            address: false,
            leak: false,
            memory: false,
            thread: false,
            hwaddress: false,
            cfi: false,
            memtag: false,
            shadow_call_stack: false,
            kcfi: false,
            kernel_address: false,
            safestack: false,
            dataflow: false,
        }
    }
}

/// What is known of the support for a target.
#[derive(Clone, Copy, Debug)]
pub struct TargetMetadata {
    pub description: Option<&'static str>,
    pub tier: Option<u64>,
    pub host_tools: Option<bool>,
    pub std: Option<bool>,
}

/// The optional part of a target's description.
#[derive(Clone, Copy, Debug)]
pub struct TargetOptions {
    pub os: &'static str,
    pub env: &'static str,
    /// Target features to enable by default.
    pub features: &'static str,
    /// The name of the function that profiling calls on entry to a function.
    pub mcount: &'static str,
    pub stack_probes: StackProbeType,
    pub supported_sanitizers: SanitizerSet,
    /// The widest atomic operation in bits, where it is not the pointer width.
    pub max_atomic_width: Option<u64>,
    pub has_thread_local: bool,
    pub crt_static_default: bool,
    pub tls_model: TlsModel,
}

/// Everything that describes a target.
#[derive(Clone, Copy, Debug)]
pub struct Target {
    /// The target as the code generator knows it.
    pub llvm_target: &'static str,
    pub metadata: TargetMetadata,
    pub pointer_width: u32,
    pub data_layout: &'static str,
    pub arch: &'static str,
    pub options: TargetOptions,
}

/// The options that the OpenHarmony targets on Linux share.
pub open spec fn linux_ohos_opts_spec() -> TargetOptions {
    TargetOptions {
        os: "linux",
        env: "ohos",
        features: "",
        mcount: "mcount",
        stack_probes: StackProbeType::Off,
        supported_sanitizers: SanitizerSet::empty_spec(),
        max_atomic_width: None,
        has_thread_local: false,
        crt_static_default: false,
        tls_model: TlsModel::Emulated,
    }
}

/// The options that the OpenHarmony targets on Linux share.
pub fn linux_ohos_opts() -> (base: TargetOptions)
    ensures
        base == linux_ohos_opts_spec(),
{
    TargetOptions {
        os: "linux",
        env: "ohos",
        features: "",
        mcount: "mcount",
        stack_probes: StackProbeType::Off,
        supported_sanitizers: SanitizerSet::empty(),
        max_atomic_width: None,
        has_thread_local: false,
        crt_static_default: false,
        tls_model: TlsModel::Emulated,
    }
}

/// The description of `aarch64-unknown-linux-ohos`.
pub open spec fn target_spec() -> Target {
    Target {
        llvm_target: "aarch64-unknown-linux-musl",
        metadata: TargetMetadata { description: None, tier: None, host_tools: None, std: None },
        pointer_width: 64,
        data_layout: "e-m:e-i8:8:32-i16:16:32-i64:64-i128:128-n32:64-S128-Fn32",
        arch: "aarch64",
        options: TargetOptions {
            features: "+reserve-x18",
            mcount: "\u{1}_mcount",
            stack_probes: StackProbeType::Inline,
            supported_sanitizers: SanitizerSet {
                address: true,
                cfi: true,
                leak: true,
                memory: true,
                memtag: true,
                thread: true,
                hwaddress: true,
                ..SanitizerSet::empty_spec()
            },
            max_atomic_width: Some(128),
            ..linux_ohos_opts_spec()
        },
    }
}

/// The description of `aarch64-unknown-linux-ohos`: the shared OpenHarmony
/// options, with 128-bit atomics, the register x18 reserved, stack probes in
/// line, and the sanitizers that the architecture supports.
pub fn target() -> (t: Target)
    ensures
        t == target_spec(),
{
    let mut base = linux_ohos_opts();
    base.max_atomic_width = Some(128);

    Target {
        // The code generator has no name for OpenHarmony; it is given the
        // name of a Linux target.
        llvm_target: "aarch64-unknown-linux-musl",
        metadata: TargetMetadata { description: None, tier: None, host_tools: None, std: None },
        pointer_width: 64,
        data_layout: "e-m:e-i8:8:32-i16:16:32-i64:64-i128:128-n32:64-S128-Fn32",
        arch: "aarch64",
        options: TargetOptions {
            features: "+reserve-x18",
            mcount: "\u{1}_mcount",
            stack_probes: StackProbeType::Inline,
            supported_sanitizers: SanitizerSet {
                address: true,
                cfi: true,
                leak: true,
                memory: true,
                memtag: true,
                thread: true,
                hwaddress: true,
                ..SanitizerSet::empty()
            },
            ..base
        },
    }
}

} // verus!
