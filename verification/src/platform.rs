use vstd::prelude::*;

verus! {

/// Operating systems the native library is built for.
#[derive(Clone, Copy, Debug, PartialEq, Eq, Structural)]
pub enum TargetOs {
    Linux,
    MacOs,
    Windows,
}

/// Processor architectures a GraalVM JDK may be published for.
#[derive(Clone, Copy, Debug, PartialEq, Eq, Structural)]
pub enum TargetArch {
    X86_64,
    Aarch64,
    /// Any other architecture; no JDK is published for it.
    Other,
}

/// The platform the build runs on.
#[derive(Clone, Copy, Debug, PartialEq, Eq, Structural)]
pub struct Platform {
    pub os: TargetOs,
    pub arch: TargetArch,
}

} // verus!
