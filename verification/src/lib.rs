//! Build-side logic of the Tika native-library tooling: which GraalVM JDK to
//! fetch for a platform, how an installation proceeds step by step, which
//! artifacts of the native-image build are copied and how they are linked,
//! and how extracted text is streamed out.
//!
//! Everything here is pure: the surrounding program performs the file,
//! network and process work and feeds the outcomes back in.

pub mod platform;
pub mod graalvm;
pub mod download;
pub mod install;
pub mod native;
pub mod stream;
