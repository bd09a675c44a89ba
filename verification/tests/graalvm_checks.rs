use tika_build::download::{
    archive_file_name, download_timeout_secs, graalvm_download, store_download, ArchiveKind,
    DownloadReply, UnsupportedArchitecture,
};
use tika_build::graalvm::{
    check_graalvm, graalvm_install_help_msg, native_image_components, native_image_exe,
    sdkman_graalvm_version,
};
use tika_build::platform::{Platform, TargetArch, TargetOs};

const HELP_GRAALCE: &str = "\nWe recommend using sdkman to install and manage different JDKs. See https://sdkman.io/usage for more information.\nYou can install graalvm using:\n  sdk install java 23.0.1-graalce \n  sdk use java 23.0.1-graalce";
const HELP_NIK: &str = "\nWe recommend using sdkman to install and manage different JDKs. See https://sdkman.io/usage for more information.\nYou can install graalvm using:\n  sdk install java 24.1.1.r23-nik \n  sdk use java 24.1.1.r23-nik";

#[test]
fn native_image_launcher_names() {
    assert_eq!(native_image_exe(TargetOs::Windows), "native-image.cmd");
    assert_eq!(native_image_exe(TargetOs::Linux), "native-image");
    assert_eq!(native_image_exe(TargetOs::MacOs), "native-image");
    assert_eq!(native_image_components(TargetOs::Windows), vec!["bin", "native-image.cmd"]);
    assert_eq!(native_image_components(TargetOs::Linux), vec!["bin", "native-image"]);
}

#[test]
fn help_message_names_the_sdkman_candidate_twice() {
    assert_eq!(sdkman_graalvm_version(TargetOs::MacOs), "24.1.1.r23-nik");
    assert_eq!(sdkman_graalvm_version(TargetOs::Windows), "23.0.1-graalce");
    assert_eq!(graalvm_install_help_msg(TargetOs::Linux), HELP_GRAALCE);
    assert_eq!(graalvm_install_help_msg(TargetOs::Windows), HELP_GRAALCE);
    assert_eq!(graalvm_install_help_msg(TargetOs::MacOs), HELP_NIK);
}

#[test]
fn check_graalvm_answers_whether_the_launcher_exists() {
    assert_eq!(check_graalvm("/opt/jdk", false, TargetOs::Linux, true), Ok(true));
    assert_eq!(check_graalvm("/opt/jdk", true, TargetOs::Linux, true), Ok(true));
    assert_eq!(check_graalvm("/opt/jdk", false, TargetOs::Linux, false), Ok(false));
}

#[test]
fn check_graalvm_fails_with_the_install_advice() {
    let expected = format!(
        "Your GraalVM JDK installation is pointing to: /opt/jdk. Please make sure it is a valid GraalVM JDK. {}",
        HELP_GRAALCE
    );
    assert_eq!(check_graalvm("/opt/jdk", true, TargetOs::Linux, false), Err(expected));
    let expected_mac = format!(
        "Your GraalVM JDK installation is pointing to: jdk. Please make sure it is a valid GraalVM JDK. {}",
        HELP_NIK
    );
    assert_eq!(check_graalvm("jdk", true, TargetOs::MacOs, false), Err(expected_mac));
}

#[test]
fn downloads_for_each_supported_platform() {
    let win = graalvm_download(Platform { os: TargetOs::Windows, arch: TargetArch::X86_64 }).unwrap();
    assert_eq!(win.url, "https://github.com/graalvm/graalvm-ce-builds/releases/download/jdk-23.0.1/graalvm-community-jdk-23.0.1_windows-x64_bin.zip");
    assert_eq!(win.archive_ext, "zip");
    assert_eq!(win.main_dir, "graalvm-community-openjdk-23.0.1+11.1");
    assert_eq!(win.kind, ArchiveKind::Zip);

    let mac_x86 = graalvm_download(Platform { os: TargetOs::MacOs, arch: TargetArch::X86_64 }).unwrap();
    assert_eq!(mac_x86.url, "https://github.com/bell-sw/LibericaNIK/releases/download/24.1.1+1-23.0.1+13/bellsoft-liberica-vm-full-openjdk23.0.1+13-24.1.1+1-macos-amd64.tar.gz");
    assert_eq!(mac_x86.archive_ext, "tar.gz");
    assert_eq!(mac_x86.main_dir, "bellsoft-liberica-vm-full-openjdk23-24.1.1/Contents/Home");
    assert_eq!(mac_x86.kind, ArchiveKind::TarGz);

    let mac_arm = graalvm_download(Platform { os: TargetOs::MacOs, arch: TargetArch::Aarch64 }).unwrap();
    assert_eq!(mac_arm.url, "https://github.com/bell-sw/LibericaNIK/releases/download/24.1.1+1-23.0.1+13/bellsoft-liberica-vm-openjdk23.0.1+13-24.1.1+1-macos-aarch64.tar.gz");
    assert_eq!(mac_arm.main_dir, "bellsoft-liberica-vm-openjdk23-24.1.1/Contents/Home");

    let linux_x86 = graalvm_download(Platform { os: TargetOs::Linux, arch: TargetArch::X86_64 }).unwrap();
    assert_eq!(linux_x86.url, "https://github.com/graalvm/graalvm-ce-builds/releases/download/jdk-23.0.1/graalvm-community-jdk-23.0.1_linux-x64_bin.tar.gz");
    assert_eq!(linux_x86.main_dir, "graalvm-community-openjdk-23.0.1+11.1");
    assert_eq!(linux_x86.kind, ArchiveKind::TarGz);

    let linux_arm = graalvm_download(Platform { os: TargetOs::Linux, arch: TargetArch::Aarch64 }).unwrap();
    assert_eq!(linux_arm.url, "https://github.com/graalvm/graalvm-ce-builds/releases/download/jdk-23.0.1/graalvm-community-jdk-23.0.1_linux-aarch64_bin.tar.gz");
    assert_eq!(linux_arm.archive_ext, "tar.gz");
}

#[test]
fn unsupported_architectures_are_refused() {
    let e = graalvm_download(Platform { os: TargetOs::Windows, arch: TargetArch::Aarch64 }).unwrap_err();
    assert_eq!(e, UnsupportedArchitecture { os: TargetOs::Windows });
    assert_eq!(e.message(), "Unsupported windows architecture");
    let e = graalvm_download(Platform { os: TargetOs::MacOs, arch: TargetArch::Other }).unwrap_err();
    assert_eq!(e.message(), "Unsupported macos architecture ");
    let e = graalvm_download(Platform { os: TargetOs::Linux, arch: TargetArch::Other }).unwrap_err();
    assert_eq!(e.message(), "Unsupported linux architecture");
}

#[test]
fn every_download_url_ends_in_its_extension() {
    for os in [TargetOs::Windows, TargetOs::MacOs, TargetOs::Linux] {
        for arch in [TargetArch::X86_64, TargetArch::Aarch64] {
            if let Ok(d) = graalvm_download(Platform { os, arch }) {
                assert!(d.url.ends_with(&format!(".{}", d.archive_ext)));
                assert_eq!(d.kind == ArchiveKind::Zip, d.archive_ext == "zip");
            }
        }
    }
}

#[test]
fn archive_file_names() {
    assert_eq!(archive_file_name("zip"), "graalvm-ce-archive.zip");
    assert_eq!(archive_file_name("tar.gz"), "graalvm-ce-archive.tar.gz");
    assert_eq!(archive_file_name(""), "graalvm-ce-archive");
    assert_eq!(download_timeout_secs(), 300);
}

#[test]
fn only_a_complete_successful_download_is_stored() {
    assert!(store_download(DownloadReply::Response { success: true, body_read: true }));
    assert!(!store_download(DownloadReply::Response { success: false, body_read: true }));
    assert!(!store_download(DownloadReply::Response { success: true, body_read: false }));
    assert!(!store_download(DownloadReply::Response { success: false, body_read: false }));
    assert!(!store_download(DownloadReply::NoResponse));
}
