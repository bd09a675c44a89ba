use vstd::prelude::*;

use crate::platform::TargetOs;

verus! {

/// Name of the `native-image` launcher inside `<graalvm_home>/bin`.
pub open spec fn spec_native_image_exe(os: TargetOs) -> Seq<char> {
    match os {
        TargetOs::Windows => "native-image.cmd"@,
        _ => "native-image"@,
    }
}

/// The `native-image` launcher's file name on `os`.
pub fn native_image_exe(os: TargetOs) -> (name: &'static str)
    ensures
        name@ == spec_native_image_exe(os),
{
    match os {
        TargetOs::Windows => "native-image.cmd",
        _ => "native-image",
    }
}

/// Components, relative to a JDK home, of the path of its `native-image` launcher.
pub open spec fn spec_native_image_components(os: TargetOs) -> Seq<Seq<char>> {
    seq!["bin"@, spec_native_image_exe(os)]
}

/// The path of the `native-image` launcher relative to a JDK home, one
/// component per element (`bin`, then the launcher's name).
pub fn native_image_components(os: TargetOs) -> (components: Vec<&'static str>)
    ensures
        components@.map_values(|c: &'static str| c@) == spec_native_image_components(os),
        components@.len() == 2,
        components@[0]@ == "bin"@,
        components@[1]@ == spec_native_image_exe(os),
{
    let mut components: Vec<&'static str> = Vec::new();
    components.push("bin");
    components.push(native_image_exe(os));
    assert(components@.map_values(|c: &'static str| c@) =~= spec_native_image_components(os));
    components
}

/// On every system the launcher sits directly in the JDK home's `bin`
/// directory: its path is exactly `bin` followed by the launcher's name, and
/// that name is `native-image`, with the `.cmd` suffix exactly on Windows.
pub proof fn lemma_native_image_in_bin(os: TargetOs)
    ensures
        spec_native_image_components(os).len() == 2,
        spec_native_image_components(os)[0] == "bin"@,
        spec_native_image_components(os)[1] == spec_native_image_exe(os),
        spec_native_image_exe(os) == "native-image"@ + (if os == TargetOs::Windows {
            ".cmd"@
        } else {
            Seq::<char>::empty()
        }),
{
    reveal_strlit("native-image");
    reveal_strlit("native-image.cmd");
    reveal_strlit(".cmd");
    assert(spec_native_image_exe(os) =~= "native-image"@ + (if os == TargetOs::Windows {
        ".cmd"@
    } else {
        Seq::<char>::empty()
    }));
}

/// The SDKMAN! candidate recommended for installing a suitable JDK.
pub open spec fn spec_sdkman_graalvm_version(os: TargetOs) -> Seq<char> {
    match os {
        TargetOs::MacOs => "24.1.1.r23-nik"@,
        _ => "23.0.1-graalce"@,
    }
}

pub open spec fn spec_help_msg_intro() -> Seq<char> {
    "\nWe recommend using sdkman to install and manage different JDKs. See https://sdkman.io/usage for more information.\nYou can install graalvm using:\n  sdk install java "@
}

pub open spec fn spec_help_msg_use() -> Seq<char> {
    " \n  sdk use java "@
}

/// The advice printed when no usable GraalVM JDK is found: an SDKMAN!
/// `install` line and a `use` line, both naming the same candidate.
pub open spec fn spec_graalvm_install_help_msg(os: TargetOs) -> Seq<char> {
    spec_help_msg_intro() + spec_sdkman_graalvm_version(os) + spec_help_msg_use()
        + spec_sdkman_graalvm_version(os)
}

/// Linux and Windows are advised the same GraalVM Community Edition
/// candidate (version 23.0.1, `-graalce`), macOS the Liberica NIK build for
/// JDK 23 (`-nik`); the advice is the same on Linux and Windows.
pub proof fn lemma_sdkman_candidates(os: TargetOs)
    ensures
        os != TargetOs::MacOs ==> spec_sdkman_graalvm_version(os) == "23.0.1"@ + "-graalce"@,
        os == TargetOs::MacOs ==> spec_sdkman_graalvm_version(os) == "24.1.1.r23"@ + "-nik"@,
        spec_graalvm_install_help_msg(TargetOs::Linux) == spec_graalvm_install_help_msg(
            TargetOs::Windows,
        ),
{
    reveal_strlit("23.0.1-graalce");
    reveal_strlit("23.0.1");
    reveal_strlit("-graalce");
    reveal_strlit("24.1.1.r23-nik");
    reveal_strlit("24.1.1.r23");
    reveal_strlit("-nik");
    assert("23.0.1"@ + "-graalce"@ =~= "23.0.1-graalce"@);
    assert("24.1.1.r23"@ + "-nik"@ =~= "24.1.1.r23-nik"@);
}

/// The SDKMAN! candidate for `os` (a Liberica NIK build on macOS, GraalVM CE elsewhere).
pub fn sdkman_graalvm_version(os: TargetOs) -> (version: &'static str)
    ensures
        version@ == spec_sdkman_graalvm_version(os),
{
    match os {
        TargetOs::MacOs => "24.1.1.r23-nik",
        _ => "23.0.1-graalce",
    }
}

/// Help text telling the user how to install and select a GraalVM JDK with SDKMAN!.
pub fn graalvm_install_help_msg(os: TargetOs) -> (msg: String)
    ensures
        msg@ == spec_graalvm_install_help_msg(os),
{
    let version = sdkman_graalvm_version(os);
    let mut msg = String::from_str(
        "\nWe recommend using sdkman to install and manage different JDKs. See https://sdkman.io/usage for more information.\nYou can install graalvm using:\n  sdk install java ",
    );
    msg.append(version);
    msg.append(" \n  sdk use java ");
    msg.append(version);
    msg
}

pub open spec fn spec_invalid_jdk_msg_head() -> Seq<char> {
    "Your GraalVM JDK installation is pointing to: "@
}

pub open spec fn spec_invalid_jdk_msg_tail() -> Seq<char> {
    ". Please make sure it is a valid GraalVM JDK. "@
}

/// The complaint raised when `graalvm_home` holds no `native-image` launcher.
pub open spec fn spec_invalid_jdk_msg(graalvm_home: Seq<char>, os: TargetOs) -> Seq<char> {
    spec_invalid_jdk_msg_head() + graalvm_home + spec_invalid_jdk_msg_tail()
        + spec_graalvm_install_help_msg(os)
}

/// Decides the outcome of checking a GraalVM JDK home, given whether its
/// `bin/native-image` launcher (see [`native_image_components`]) exists.
///
/// When `panic` is set and the launcher is missing, the check fails with the
/// message that names the home and explains how to install a JDK; otherwise it
/// answers whether the launcher exists.
pub fn check_graalvm(graalvm_home: &str, panic: bool, os: TargetOs, native_image_exists: bool) -> (res:
    Result<bool, String>)
    ensures
        !(panic && !native_image_exists) ==> res == Ok::<bool, String>(native_image_exists),
        panic && !native_image_exists ==> (res matches Err(msg) && msg@ == spec_invalid_jdk_msg(
            graalvm_home@,
            os,
        )),
{
    if panic && !native_image_exists {
        let mut msg = String::from_str("Your GraalVM JDK installation is pointing to: ");
        msg.append(graalvm_home);
        msg.append(". Please make sure it is a valid GraalVM JDK. ");
        let help = graalvm_install_help_msg(os);
        msg.append(help.as_str());
        Err(msg)
    } else {
        Ok(native_image_exists)
    }
}

} // verus!
