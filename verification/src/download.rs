use vstd::prelude::*;

use crate::platform::{Platform, TargetArch, TargetOs};

verus! {

/// How a downloaded JDK archive is unpacked.
#[derive(Clone, Copy, Debug, PartialEq, Eq, Structural)]
pub enum ArchiveKind {
    /// A zip archive, unpacked entry by entry.
    Zip,
    /// A gzip-compressed tarball.
    TarGz,
}

/// Where to fetch a GraalVM JDK for one platform and what it unpacks to.
#[derive(Clone, Copy, Debug, PartialEq, Eq)]
pub struct GraalvmDownload {
    /// The archive's download URL.
    pub url: &'static str,
    /// The archive's file extension.
    pub archive_ext: &'static str,
    /// The JDK home inside the unpacked archive, relative to the install directory.
    pub main_dir: &'static str,
    /// How the archive is unpacked.
    pub kind: ArchiveKind,
}

/// No JDK is published for the requested architecture on this operating system.
#[derive(Clone, Copy, Debug, PartialEq, Eq, Structural)]
pub struct UnsupportedArchitecture {
    pub os: TargetOs,
}

pub open spec fn spec_unsupported_arch_msg(os: TargetOs) -> Seq<char> {
    match os {
        TargetOs::Windows => "Unsupported windows architecture"@,
        TargetOs::MacOs => "Unsupported macos architecture "@,
        TargetOs::Linux => "Unsupported linux architecture"@,
    }
}

impl UnsupportedArchitecture {
    /// The complaint for this operating system.
    pub fn message(&self) -> (msg: String)
        ensures
            msg@ == spec_unsupported_arch_msg(self.os),
    {
        match self.os {
            TargetOs::Windows => String::from_str("Unsupported windows architecture"),
            TargetOs::MacOs => String::from_str("Unsupported macos architecture "),
            TargetOs::Linux => String::from_str("Unsupported linux architecture"),
        }
    }
}

/// A JDK is published for `p`: x86-64 on every operating system, and
/// AArch64 on macOS and Linux.
pub open spec fn spec_supported(p: Platform) -> bool {
    match p.os {
        TargetOs::Windows => p.arch == TargetArch::X86_64,
        _ => p.arch == TargetArch::X86_64 || p.arch == TargetArch::Aarch64,
    }
}

pub open spec fn spec_download_url(p: Platform) -> Seq<char> {
    match (p.os, p.arch) {
        (TargetOs::Windows, _) =>
            "https://github.com/graalvm/graalvm-ce-builds/releases/download/jdk-23.0.1/graalvm-community-jdk-23.0.1_windows-x64_bin.zip"@,
        (TargetOs::MacOs, TargetArch::X86_64) =>
            "https://github.com/bell-sw/LibericaNIK/releases/download/24.1.1+1-23.0.1+13/bellsoft-liberica-vm-full-openjdk23.0.1+13-24.1.1+1-macos-amd64.tar.gz"@,
        (TargetOs::MacOs, _) =>
            "https://github.com/bell-sw/LibericaNIK/releases/download/24.1.1+1-23.0.1+13/bellsoft-liberica-vm-openjdk23.0.1+13-24.1.1+1-macos-aarch64.tar.gz"@,
        (TargetOs::Linux, TargetArch::X86_64) =>
            "https://github.com/graalvm/graalvm-ce-builds/releases/download/jdk-23.0.1/graalvm-community-jdk-23.0.1_linux-x64_bin.tar.gz"@,
        (TargetOs::Linux, _) =>
            "https://github.com/graalvm/graalvm-ce-builds/releases/download/jdk-23.0.1/graalvm-community-jdk-23.0.1_linux-aarch64_bin.tar.gz"@,
    }
}

pub open spec fn spec_archive_ext(os: TargetOs) -> Seq<char> {
    match os {
        TargetOs::Windows => "zip"@,
        _ => "tar.gz"@,
    }
}

pub open spec fn spec_archive_kind(os: TargetOs) -> ArchiveKind {
    match os {
        TargetOs::Windows => ArchiveKind::Zip,
        _ => ArchiveKind::TarGz,
    }
}

pub open spec fn spec_main_dir(p: Platform) -> Seq<char> {
    match (p.os, p.arch) {
        (TargetOs::MacOs, TargetArch::X86_64) => "bellsoft-liberica-vm-full-openjdk23-24.1.1/Contents/Home"@,
        (TargetOs::MacOs, _) => "bellsoft-liberica-vm-openjdk23-24.1.1/Contents/Home"@,
        _ => "graalvm-community-openjdk-23.0.1+11.1"@,
    }
}

/// `d` is the published JDK for the supported platform `p`.
pub open spec fn spec_is_download_for(d: GraalvmDownload, p: Platform) -> bool {
    &&& d.url@ == spec_download_url(p)
    &&& d.archive_ext@ == spec_archive_ext(p.os)
    &&& d.main_dir@ == spec_main_dir(p)
    &&& d.kind == spec_archive_kind(p.os)
}

/// Chooses the GraalVM JDK to install on `platform`: GraalVM Community
/// Edition 23.0.1 on Windows and Linux, Liberica NIK 24.1.1 (JDK 23) on macOS.
pub fn graalvm_download(platform: Platform) -> (res: Result<GraalvmDownload, UnsupportedArchitecture>)
    ensures
        res is Ok <==> spec_supported(platform),
        res matches Ok(d) ==> spec_is_download_for(d, platform),
        res matches Err(e) ==> e.os == platform.os,
        platform.arch == TargetArch::Other ==> res is Err,
        platform.os == TargetOs::Windows && platform.arch != TargetArch::X86_64 ==> res is Err,
        platform.os != TargetOs::MacOs ==> (res matches Ok(d) ==> d.main_dir@
            == "graalvm-community-openjdk-23.0.1+11.1"@),
{
    match platform.os {
        TargetOs::Windows => {
            if platform.arch == TargetArch::X86_64 {
                Ok(GraalvmDownload {
                    url: "https://github.com/graalvm/graalvm-ce-builds/releases/download/jdk-23.0.1/graalvm-community-jdk-23.0.1_windows-x64_bin.zip",
                    archive_ext: "zip",
                    main_dir: "graalvm-community-openjdk-23.0.1+11.1",
                    kind: ArchiveKind::Zip,
                })
            } else {
                Err(UnsupportedArchitecture { os: TargetOs::Windows })
            }
        },
        TargetOs::MacOs => {
            match platform.arch {
                TargetArch::X86_64 => Ok(GraalvmDownload {
                    url: "https://github.com/bell-sw/LibericaNIK/releases/download/24.1.1+1-23.0.1+13/bellsoft-liberica-vm-full-openjdk23.0.1+13-24.1.1+1-macos-amd64.tar.gz",
                    archive_ext: "tar.gz",
                    main_dir: "bellsoft-liberica-vm-full-openjdk23-24.1.1/Contents/Home",
                    kind: ArchiveKind::TarGz,
                }),
                TargetArch::Aarch64 => Ok(GraalvmDownload {
                    url: "https://github.com/bell-sw/LibericaNIK/releases/download/24.1.1+1-23.0.1+13/bellsoft-liberica-vm-openjdk23.0.1+13-24.1.1+1-macos-aarch64.tar.gz",
                    archive_ext: "tar.gz",
                    main_dir: "bellsoft-liberica-vm-openjdk23-24.1.1/Contents/Home",
                    kind: ArchiveKind::TarGz,
                }),
                TargetArch::Other => Err(UnsupportedArchitecture { os: TargetOs::MacOs }),
            }
        },
        TargetOs::Linux => {
            match platform.arch {
                TargetArch::X86_64 => Ok(GraalvmDownload {
                    url: "https://github.com/graalvm/graalvm-ce-builds/releases/download/jdk-23.0.1/graalvm-community-jdk-23.0.1_linux-x64_bin.tar.gz",
                    archive_ext: "tar.gz",
                    main_dir: "graalvm-community-openjdk-23.0.1+11.1",
                    kind: ArchiveKind::TarGz,
                }),
                TargetArch::Aarch64 => Ok(GraalvmDownload {
                    url: "https://github.com/graalvm/graalvm-ce-builds/releases/download/jdk-23.0.1/graalvm-community-jdk-23.0.1_linux-aarch64_bin.tar.gz",
                    archive_ext: "tar.gz",
                    main_dir: "graalvm-community-openjdk-23.0.1+11.1",
                    kind: ArchiveKind::TarGz,
                }),
                TargetArch::Other => Err(UnsupportedArchitecture { os: TargetOs::Linux }),
            }
        },
    }
}

pub open spec fn spec_ends_with(s: Seq<char>, suffix: Seq<char>) -> bool {
    suffix.len() <= s.len() && s.subrange(s.len() - suffix.len(), s.len() as int) == suffix
}

/// Every published archive's URL ends in a dot and the archive's extension,
/// and the archive is unpacked as a zip exactly when that extension is `zip`.
pub proof fn lemma_download_matches_extension(p: Platform)
    requires
        spec_supported(p),
    ensures
        spec_ends_with(spec_download_url(p), "."@ + spec_archive_ext(p.os)),
        (spec_archive_kind(p.os) == ArchiveKind::Zip) <==> spec_archive_ext(p.os) == "zip"@,
{
    reveal_strlit("zip");
    reveal_strlit("tar.gz");
    reveal_strlit(".");
    match (p.os, p.arch) {
        (TargetOs::Windows, _) => {
            reveal_strlit("https://github.com/graalvm/graalvm-ce-builds/releases/download/jdk-23.0.1/graalvm-community-jdk-23.0.1_windows-x64_bin.zip");
            let u = spec_download_url(p);
            assert(u.subrange(u.len() - 4, u.len() as int) =~= "."@ + "zip"@);
        },
        (TargetOs::MacOs, TargetArch::X86_64) => {
            reveal_strlit("https://github.com/bell-sw/LibericaNIK/releases/download/24.1.1+1-23.0.1+13/bellsoft-liberica-vm-full-openjdk23.0.1+13-24.1.1+1-macos-amd64.tar.gz");
            let u = spec_download_url(p);
            assert(u.subrange(u.len() - 7, u.len() as int) =~= "."@ + "tar.gz"@);
        },
        (TargetOs::MacOs, _) => {
            reveal_strlit("https://github.com/bell-sw/LibericaNIK/releases/download/24.1.1+1-23.0.1+13/bellsoft-liberica-vm-openjdk23.0.1+13-24.1.1+1-macos-aarch64.tar.gz");
            let u = spec_download_url(p);
            assert(u.subrange(u.len() - 7, u.len() as int) =~= "."@ + "tar.gz"@);
        },
        (TargetOs::Linux, TargetArch::X86_64) => {
            reveal_strlit("https://github.com/graalvm/graalvm-ce-builds/releases/download/jdk-23.0.1/graalvm-community-jdk-23.0.1_linux-x64_bin.tar.gz");
            let u = spec_download_url(p);
            assert(u.subrange(u.len() - 7, u.len() as int) =~= "."@ + "tar.gz"@);
        },
        (TargetOs::Linux, _) => {
            reveal_strlit("https://github.com/graalvm/graalvm-ce-builds/releases/download/jdk-23.0.1/graalvm-community-jdk-23.0.1_linux-aarch64_bin.tar.gz");
            let u = spec_download_url(p);
            assert(u.subrange(u.len() - 7, u.len() as int) =~= "."@ + "tar.gz"@);
        },
    }
}

/// Every GraalVM Community Edition archive (those for Linux and Windows, on
/// any architecture) unpacks to the same JDK home, so the home does not
/// depend on the platform within that release.
pub proof fn lemma_graalce_home_shared(p: Platform, q: Platform)
    requires
        spec_supported(p),
        spec_supported(q),
        p.os != TargetOs::MacOs,
        q.os != TargetOs::MacOs,
    ensures
        spec_main_dir(p) == spec_main_dir(q),
        spec_main_dir(p) == "graalvm-community-openjdk-23.0.1+11.1"@,
{
}

/// A macOS JDK home is the `Contents/Home` directory of the unpacked bundle.
pub proof fn lemma_macos_home_is_bundle_home(p: Platform)
    requires
        spec_supported(p),
        p.os == TargetOs::MacOs,
    ensures
        spec_ends_with(spec_main_dir(p), "/Contents/Home"@),
{
    reveal_strlit("/Contents/Home");
    let m = spec_main_dir(p);
    if p.arch == TargetArch::X86_64 {
        reveal_strlit("bellsoft-liberica-vm-full-openjdk23-24.1.1/Contents/Home");
        assert(m.subrange(m.len() - 14, m.len() as int) =~= "/Contents/Home"@);
    } else {
        reveal_strlit("bellsoft-liberica-vm-openjdk23-24.1.1/Contents/Home");
        assert(m.subrange(m.len() - 14, m.len() as int) =~= "/Contents/Home"@);
    }
}

/// On macOS the x86-64 archive is Liberica's "full" bundle and the AArch64
/// one the standard bundle, and the JDK home lies in the matching bundle: its
/// directory names the full bundle exactly for x86-64, and both archive and
/// home carry the same bundle name.
pub proof fn lemma_macos_home_matches_bundle(p: Platform)
    requires
        spec_supported(p),
        p.os == TargetOs::MacOs,
    ensures
        (spec_main_dir(p).len() >= 26 && spec_main_dir(p).subrange(0, 26)
            == "bellsoft-liberica-vm-full-"@) <==> p.arch == TargetArch::X86_64,
        spec_ends_with(
            spec_download_url(p),
            (if p.arch == TargetArch::X86_64 {
                "bellsoft-liberica-vm-full-"@
            } else {
                "bellsoft-liberica-vm-"@
            }) + "openjdk23.0.1+13-24.1.1+1-macos-"@ + (if p.arch == TargetArch::X86_64 {
                "amd64"@
            } else {
                "aarch64"@
            }) + ".tar.gz"@,
        ),
{
    reveal_strlit("bellsoft-liberica-vm-full-");
    reveal_strlit("bellsoft-liberica-vm-");
    reveal_strlit("openjdk23.0.1+13-24.1.1+1-macos-");
    reveal_strlit("amd64");
    reveal_strlit("aarch64");
    reveal_strlit(".tar.gz");
    let m = spec_main_dir(p);
    let u = spec_download_url(p);
    if p.arch == TargetArch::X86_64 {
        reveal_strlit("bellsoft-liberica-vm-full-openjdk23-24.1.1/Contents/Home");
        reveal_strlit("https://github.com/bell-sw/LibericaNIK/releases/download/24.1.1+1-23.0.1+13/bellsoft-liberica-vm-full-openjdk23.0.1+13-24.1.1+1-macos-amd64.tar.gz");
        assert(m.subrange(0, 26) =~= "bellsoft-liberica-vm-full-"@);
        let suf = "bellsoft-liberica-vm-full-"@ + "openjdk23.0.1+13-24.1.1+1-macos-"@ + "amd64"@
            + ".tar.gz"@;
        assert(u.subrange(u.len() - suf.len(), u.len() as int) =~= suf);
    } else {
        reveal_strlit("bellsoft-liberica-vm-openjdk23-24.1.1/Contents/Home");
        reveal_strlit("https://github.com/bell-sw/LibericaNIK/releases/download/24.1.1+1-23.0.1+13/bellsoft-liberica-vm-openjdk23.0.1+13-24.1.1+1-macos-aarch64.tar.gz");
        assert(m.subrange(0, 26)[21] != "bellsoft-liberica-vm-full-"@[21]);
        let suf = "bellsoft-liberica-vm-"@ + "openjdk23.0.1+13-24.1.1+1-macos-"@ + "aarch64"@
            + ".tar.gz"@;
        assert(u.subrange(u.len() - suf.len(), u.len() as int) =~= suf);
    }
}

/// No JDK is offered for an architecture other than x86-64 and AArch64, and
/// on Windows none for anything but x86-64.
pub proof fn lemma_supported_architectures(p: Platform)
    ensures
        p.arch == TargetArch::Other ==> !spec_supported(p),
        p.os == TargetOs::Windows && p.arch != TargetArch::X86_64 ==> !spec_supported(p),
        p.arch == TargetArch::X86_64 ==> spec_supported(p),
{
}

/// The archive offered is built for the platform's architecture: its name
/// ends in the x86-64 tag (`x64_bin` or `amd64`) exactly for x86-64 and in the
/// `aarch64` tag exactly for AArch64.
pub proof fn lemma_archive_names_architecture(p: Platform)
    requires
        spec_supported(p),
    ensures
        p.arch == TargetArch::X86_64 <==> (spec_ends_with(
            spec_download_url(p),
            "x64_bin."@ + spec_archive_ext(p.os),
        ) || spec_ends_with(spec_download_url(p), "amd64."@ + spec_archive_ext(p.os))),
        p.arch == TargetArch::Aarch64 <==> (spec_ends_with(
            spec_download_url(p),
            "aarch64_bin."@ + spec_archive_ext(p.os),
        ) || spec_ends_with(spec_download_url(p), "aarch64."@ + spec_archive_ext(p.os))),
{
    reveal_strlit("zip");
    reveal_strlit("tar.gz");
    reveal_strlit("x64_bin.");
    reveal_strlit("amd64.");
    reveal_strlit("aarch64_bin.");
    reveal_strlit("aarch64.");
    let u = spec_download_url(p);
    let e = spec_archive_ext(p.os);
    match (p.os, p.arch) {
        (TargetOs::Windows, _) => {
            reveal_strlit("https://github.com/graalvm/graalvm-ce-builds/releases/download/jdk-23.0.1/graalvm-community-jdk-23.0.1_windows-x64_bin.zip");
            assert(u.subrange(u.len() - 11, u.len() as int) =~= "x64_bin."@ + e);
            assert(u.subrange(u.len() - 15, u.len() as int) != "aarch64_bin."@ + e) by {
                assert(u.subrange(u.len() - 15, u.len() as int)[0] != ("aarch64_bin."@ + e)[0]);
            }
            assert(u.subrange(u.len() - 11, u.len() as int) != "aarch64."@ + e) by {
                assert(u.subrange(u.len() - 11, u.len() as int)[0] != ("aarch64."@ + e)[0]);
            }
        },
        (TargetOs::MacOs, TargetArch::X86_64) => {
            reveal_strlit("https://github.com/bell-sw/LibericaNIK/releases/download/24.1.1+1-23.0.1+13/bellsoft-liberica-vm-full-openjdk23.0.1+13-24.1.1+1-macos-amd64.tar.gz");
            assert(u.subrange(u.len() - 12, u.len() as int) =~= "amd64."@ + e);
            assert(u.subrange(u.len() - 18, u.len() as int) != "aarch64_bin."@ + e) by {
                assert(u.subrange(u.len() - 18, u.len() as int)[0] != ("aarch64_bin."@ + e)[0]);
            }
            assert(u.subrange(u.len() - 14, u.len() as int) != "aarch64."@ + e) by {
                assert(u.subrange(u.len() - 14, u.len() as int)[0] != ("aarch64."@ + e)[0]);
            }
        },
        (TargetOs::MacOs, _) => {
            reveal_strlit("https://github.com/bell-sw/LibericaNIK/releases/download/24.1.1+1-23.0.1+13/bellsoft-liberica-vm-openjdk23.0.1+13-24.1.1+1-macos-aarch64.tar.gz");
            assert(u.subrange(u.len() - 14, u.len() as int) =~= "aarch64."@ + e);
            assert(u.subrange(u.len() - 14, u.len() as int) != "x64_bin."@ + e) by {
                assert(u.subrange(u.len() - 14, u.len() as int)[0] != ("x64_bin."@ + e)[0]);
            }
            assert(u.subrange(u.len() - 12, u.len() as int) != "amd64."@ + e) by {
                assert(u.subrange(u.len() - 12, u.len() as int)[0] != ("amd64."@ + e)[0]);
            }
        },
        (TargetOs::Linux, TargetArch::X86_64) => {
            reveal_strlit("https://github.com/graalvm/graalvm-ce-builds/releases/download/jdk-23.0.1/graalvm-community-jdk-23.0.1_linux-x64_bin.tar.gz");
            assert(u.subrange(u.len() - 14, u.len() as int) =~= "x64_bin."@ + e);
            assert(u.subrange(u.len() - 18, u.len() as int) != "aarch64_bin."@ + e) by {
                assert(u.subrange(u.len() - 18, u.len() as int)[0] != ("aarch64_bin."@ + e)[0]);
            }
            assert(u.subrange(u.len() - 14, u.len() as int) != "aarch64."@ + e) by {
                assert(u.subrange(u.len() - 14, u.len() as int)[0] != ("aarch64."@ + e)[0]);
            }
        },
        (TargetOs::Linux, _) => {
            reveal_strlit("https://github.com/graalvm/graalvm-ce-builds/releases/download/jdk-23.0.1/graalvm-community-jdk-23.0.1_linux-aarch64_bin.tar.gz");
            assert(u.subrange(u.len() - 18, u.len() as int) =~= "aarch64_bin."@ + e);
            assert(u.subrange(u.len() - 14, u.len() as int) != "x64_bin."@ + e) by {
                assert(u.subrange(u.len() - 14, u.len() as int)[0] != ("x64_bin."@ + e)[0]);
            }
            assert(u.subrange(u.len() - 12, u.len() as int) != "amd64."@ + e) by {
                assert(u.subrange(u.len() - 12, u.len() as int)[0] != ("amd64."@ + e)[0]);
            }
        },
    }
}

/// Stem of the file the downloaded archive is stored under.
pub open spec fn spec_archive_stem() -> Seq<char> {
    "graalvm-ce-archive"@
}

/// `graalvm-ce-archive` with the extension `ext` set, as `Path::with_extension`
/// sets it on that stem: a dot and `ext`, or nothing when `ext` is empty.
pub open spec fn spec_archive_file_name(ext: Seq<char>) -> Seq<char> {
    if ext.len() == 0 {
        spec_archive_stem()
    } else {
        spec_archive_stem() + "."@ + ext
    }
}

/// The file name, inside the install directory, of the downloaded archive.
pub fn archive_file_name(ext: &str) -> (name: String)
    ensures
        name@ == spec_archive_file_name(ext@),
{
    let mut name = String::from_str("graalvm-ce-archive");
    if !ext.is_empty() {
        name.append(".");
        name.append(ext);
    }
    name
}

/// What the request for the archive brought back.
#[derive(Clone, Copy, Debug, PartialEq, Eq, Structural)]
pub enum DownloadReply {
    /// The request could not be sent, or no response arrived in time.
    NoResponse,
    /// A response arrived; `success` tells whether its status is a success,
    /// `body_read` whether its whole body could be read.
    Response { success: bool, body_read: bool },
}

/// Whether the downloaded body is stored as the archive. Only a response with
/// a success status whose whole body was read is stored; any other reply is a
/// failed download and nothing is written, so no corrupt archive is left for
/// a later run to reuse.
pub fn store_download(reply: DownloadReply) -> (store: bool)
    ensures
        store == (reply == DownloadReply::Response { success: true, body_read: true }),
{
    match reply {
        DownloadReply::NoResponse => false,
        DownloadReply::Response { success, body_read } => success && body_read,
    }
}

/// Seconds the download of the JDK archive may take (five minutes).
pub fn download_timeout_secs() -> (secs: u64)
    ensures
        secs == 300,
{
    60 * 5
}

} // verus!
