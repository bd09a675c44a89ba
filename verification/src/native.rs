use vstd::prelude::*;

use crate::platform::TargetOs;

verus! {

/// Directory, relative to the working directory, that JDKs are installed into.
pub open spec fn spec_graalvm_jdk_dir() -> Seq<char> {
    "./graalvm_jdk"@
}

/// Directory of the Gradle project that builds the native library.
pub open spec fn spec_tika_native_dir() -> Seq<char> {
    "./tika-native"@
}

/// Directory the native-image build leaves its artifacts in, with a trailing `/`.
pub open spec fn spec_native_compile_dir() -> Seq<char> {
    spec_tika_native_dir() + "/build/native/nativeCompile/"@
}

/// File name of the native Tika library on `os`.
pub open spec fn spec_libtika_file(os: TargetOs) -> Seq<char> {
    match os {
        TargetOs::MacOs => "libtika_native.dylib"@,
        TargetOs::Linux => "libtika_native.so"@,
        TargetOs::Windows => "libtika_native.dll"@,
    }
}

/// Name of the Gradle wrapper script on `os`.
pub open spec fn spec_gradlew_file(os: TargetOs) -> Seq<char> {
    match os {
        TargetOs::Windows => "gradlew.bat"@,
        _ => "gradlew"@,
    }
}

/// The files copied out of the build directory, in copy order: the Tika
/// library first, then the JVM libraries it needs on Linux, or on Windows
/// the JVM libraries and the import library the MSVC linker needs.
pub open spec fn spec_copied_files(os: TargetOs) -> Seq<Seq<char>> {
    match os {
        TargetOs::MacOs => seq![spec_libtika_file(os)],
        TargetOs::Linux => seq![
            spec_libtika_file(os),
            "libjava.so"@,
            "libjvm.so"@,
            "libawt.so"@,
            "libawt_headless.so"@,
        ],
        TargetOs::Windows => seq![
            spec_libtika_file(os),
            "java.dll"@,
            "jvm.dll"@,
            "awt.dll"@,
            "libtika_native.lib"@,
        ],
    }
}

/// The directory JDKs are installed into.
pub fn graalvm_jdk_dir() -> (dir: &'static str)
    ensures
        dir@ == spec_graalvm_jdk_dir(),
{
    "./graalvm_jdk"
}

/// The Gradle project directory of the native library.
pub fn tika_native_dir() -> (dir: &'static str)
    ensures
        dir@ == spec_tika_native_dir(),
{
    "./tika-native"
}

/// The Gradle wrapper script's file name on `os`.
pub fn gradlew_file_name(os: TargetOs) -> (name: &'static str)
    ensures
        name@ == spec_gradlew_file(os),
        os != TargetOs::Windows ==> name@ == "gradlew"@,
        os == TargetOs::Windows ==> name@ == "gradlew.bat"@,
{
    match os {
        TargetOs::Windows => "gradlew.bat",
        _ => "gradlew",
    }
}

/// The Gradle wrapper is the same `gradlew` shell script on Linux and macOS,
/// and on Windows it is that name with the `.bat` suffix.
pub proof fn lemma_gradlew_batch_only_on_windows(os: TargetOs)
    ensures
        spec_gradlew_file(TargetOs::Linux) == spec_gradlew_file(TargetOs::MacOs),
        spec_gradlew_file(os) == "gradlew"@ + (if os == TargetOs::Windows {
            ".bat"@
        } else {
            Seq::<char>::empty()
        }),
{
    reveal_strlit("gradlew");
    reveal_strlit("gradlew.bat");
    reveal_strlit(".bat");
    assert(spec_gradlew_file(os) =~= "gradlew"@ + (if os == TargetOs::Windows {
        ".bat"@
    } else {
        Seq::<char>::empty()
    }));
}

/// The arguments the Gradle wrapper is run with.
pub fn gradle_build_args() -> (args: Vec<&'static str>)
    ensures
        args@.map_values(|a: &'static str| a@) == seq!["--no-daemon"@, "nativeCompile"@],
{
    let mut args: Vec<&'static str> = Vec::new();
    args.push("--no-daemon");
    args.push("nativeCompile");
    assert(args@.map_values(|a: &'static str| a@) =~= seq!["--no-daemon"@, "nativeCompile"@]);
    args
}

/// The environment variable that tells the Gradle build which JDK to use.
pub fn java_home_var() -> (name: &'static str)
    ensures
        name@ == "JAVA_HOME"@,
{
    "JAVA_HOME"
}

/// The native Tika library's file name on `os`.
pub fn libtika_file_name(os: TargetOs) -> (name: &'static str)
    ensures
        name@ == spec_libtika_file(os),
{
    match os {
        TargetOs::MacOs => "libtika_native.dylib",
        TargetOs::Linux => "libtika_native.so",
        TargetOs::Windows => "libtika_native.dll",
    }
}

/// The path, in the build directory, of the file `name`.
pub fn build_output_path(name: &str) -> (path: String)
    ensures
        path@ == spec_native_compile_dir() + name@,
{
    let mut path = String::from_str("./tika-native");
    path.append("/build/native/nativeCompile/");
    path.append(name);
    path
}

/// One file to copy from the build directory into the project root.
#[derive(Debug, PartialEq, Eq)]
pub struct LibraryCopy {
    /// Where the build left the file.
    pub from: String,
    /// The file's name in the project root.
    pub to: String,
}

/// `copies` copies exactly `files`, in order, each from the build directory
/// to the project root under its own name.
pub open spec fn spec_copies_files(copies: Seq<LibraryCopy>, files: Seq<Seq<char>>) -> bool {
    &&& copies.len() == files.len()
    &&& forall|i: int|
        0 <= i < files.len() ==> {
            &&& (#[trigger] copies[i]).to@ == files[i]
            &&& copies[i].from@ == spec_native_compile_dir() + files[i]
        }
}

fn push_copy(copies: &mut Vec<LibraryCopy>, name: &str)
    ensures
        final(copies)@.len() == old(copies)@.len() + 1,
        forall|i: int| 0 <= i < old(copies)@.len() ==> final(copies)@[i] == old(copies)@[i],
        final(copies)@.last().to@ == name@,
        final(copies)@.last().from@ == spec_native_compile_dir() + name@,
{
    let from = build_output_path(name);
    let to = String::from_str(name);
    copies.push(LibraryCopy { from, to });
}

/// The shared libraries to move from the build directory into the project
/// root on `os`.
pub fn shared_library_copies(os: TargetOs) -> (copies: Vec<LibraryCopy>)
    ensures
        spec_copies_files(copies@, spec_copied_files(os)),
{
    let mut copies: Vec<LibraryCopy> = Vec::new();
    push_copy(&mut copies, libtika_file_name(os));
    match os {
        TargetOs::MacOs => {},
        TargetOs::Linux => {
            push_copy(&mut copies, "libjava.so");
            push_copy(&mut copies, "libjvm.so");
            push_copy(&mut copies, "libawt.so");
            push_copy(&mut copies, "libawt_headless.so");
        },
        TargetOs::Windows => {
            push_copy(&mut copies, "java.dll");
            push_copy(&mut copies, "jvm.dll");
            push_copy(&mut copies, "awt.dll");
            push_copy(&mut copies, "libtika_native.lib");
        },
    }
    copies
}

/// The Tika library is always the first file copied out of the build
/// directory, and it is the file the build is checked to have produced.
pub proof fn lemma_libtika_copied_first(os: TargetOs)
    ensures
        spec_copied_files(os).len() >= 1,
        spec_copied_files(os)[0] == spec_libtika_file(os),
{
}

/// What is copied on each system: on macOS only the Tika library, a
/// `.dylib`; on Linux five shared objects (`.so`), the Tika library and four
/// JVM libraries; on Windows five files, four `.dll` libraries and last the
/// `.lib` import library of the Tika library.
pub proof fn lemma_copies_per_system()
    ensures
        spec_copied_files(TargetOs::MacOs).len() == 1,
        crate::download::spec_ends_with(spec_copied_files(TargetOs::MacOs)[0], ".dylib"@),
        spec_copied_files(TargetOs::Linux).len() == 5,
        forall|i: int|
            0 <= i < 5 ==> crate::download::spec_ends_with(
                #[trigger] spec_copied_files(TargetOs::Linux)[i],
                ".so"@,
            ),
        spec_copied_files(TargetOs::Windows).len() == 5,
        forall|i: int|
            0 <= i < 4 ==> crate::download::spec_ends_with(
                #[trigger] spec_copied_files(TargetOs::Windows)[i],
                ".dll"@,
            ),
        spec_copied_files(TargetOs::Windows)[4] == "libtika_native.lib"@,
{
    reveal_strlit(".dylib");
    reveal_strlit(".so");
    reveal_strlit(".dll");
    reveal_strlit("libtika_native.dylib");
    reveal_strlit("libtika_native.so");
    reveal_strlit("libtika_native.dll");
    reveal_strlit("libjava.so");
    reveal_strlit("libjvm.so");
    reveal_strlit("libawt.so");
    reveal_strlit("libawt_headless.so");
    reveal_strlit("java.dll");
    reveal_strlit("jvm.dll");
    reveal_strlit("awt.dll");
    let m = spec_copied_files(TargetOs::MacOs)[0];
    assert(m.subrange(m.len() - 6, m.len() as int) =~= ".dylib"@);
    let l = spec_copied_files(TargetOs::Linux);
    assert forall|i: int| 0 <= i < 5 implies crate::download::spec_ends_with(#[trigger] l[i], ".so"@) by {
        assert(l[i].subrange(l[i].len() - 3, l[i].len() as int) =~= ".so"@);
    }
    let w = spec_copied_files(TargetOs::Windows);
    assert forall|i: int| 0 <= i < 4 implies crate::download::spec_ends_with(#[trigger] w[i], ".dll"@) by {
        assert(w[i].subrange(w[i].len() - 4, w[i].len() as int) =~= ".dll"@);
    }
}

/// No two copies land on the same file: the copied names are pairwise distinct.
pub proof fn lemma_copied_files_distinct(os: TargetOs, i: int, j: int)
    requires
        0 <= i < j < spec_copied_files(os).len(),
    ensures
        spec_copied_files(os)[i] != spec_copied_files(os)[j],
{
    reveal_strlit("libtika_native.dylib");
    reveal_strlit("libtika_native.so");
    reveal_strlit("libtika_native.dll");
    reveal_strlit("libjava.so");
    reveal_strlit("libjvm.so");
    reveal_strlit("libawt.so");
    reveal_strlit("libawt_headless.so");
    reveal_strlit("java.dll");
    reveal_strlit("jvm.dll");
    reveal_strlit("awt.dll");
    reveal_strlit("libtika_native.lib");
    let f = spec_copied_files(os);
    match os {
        TargetOs::MacOs => {
            assert(f.len() == 1);
        },
        TargetOs::Linux => {
            assert(f.len() == 5);
            let (a, b, c, d, e) = (
                "libtika_native.so"@,
                "libjava.so"@,
                "libjvm.so"@,
                "libawt.so"@,
                "libawt_headless.so"@,
            );
            assert(f[0] == a && f[1] == b && f[2] == c && f[3] == d && f[4] == e);
            assert(a.len() == 17 && b.len() == 10 && c.len() == 9 && d.len() == 9 && e.len() == 18);
            assert(c[3] == 'j' && d[3] == 'a');
        },
        TargetOs::Windows => {
            assert(f.len() == 5);
            let (a, b, c, d, e) = (
                "libtika_native.dll"@,
                "java.dll"@,
                "jvm.dll"@,
                "awt.dll"@,
                "libtika_native.lib"@,
            );
            assert(f[0] == a && f[1] == b && f[2] == c && f[3] == d && f[4] == e);
            assert(a.len() == 18 && b.len() == 8 && c.len() == 7 && d.len() == 7 && e.len() == 18);
            assert(c[0] == 'j' && d[0] == 'a');
            assert(a[15] == 'd' && e[15] == 'l');
        },
    }
}

/// Arguments of `install_name_tool` that make the macOS library load through
/// the runtime search path; no other system rewrites the install name.
pub open spec fn spec_install_name_args(os: TargetOs) -> Option<Seq<Seq<char>>> {
    match os {
        TargetOs::MacOs => Some(
            seq!["-id"@, "@rpath/"@ + spec_libtika_file(os), spec_libtika_file(os)],
        ),
        _ => None,
    }
}

/// The program that rewrites the install name of the macOS library.
pub fn install_name_tool_program() -> (program: &'static str)
    ensures
        program@ == "install_name_tool"@,
{
    "install_name_tool"
}

/// The arguments to run `install_name_tool` with on `os`, if it is run there.
pub fn install_name_args(os: TargetOs) -> (args: Option<Vec<String>>)
    ensures
        match spec_install_name_args(os) {
            Some(expected) => args matches Some(a) && a@.map_values(|s: String| s@) == expected,
            None => args is None,
        },
{
    match os {
        TargetOs::MacOs => {
            let lib = libtika_file_name(os);
            let mut rpath = String::from_str("@rpath/");
            rpath.append(lib);
            let mut args: Vec<String> = Vec::new();
            args.push(String::from_str("-id"));
            args.push(rpath);
            args.push(String::from_str(lib));
            assert(args@.map_values(|s: String| s@) =~= seq![
                "-id"@,
                "@rpath/"@ + spec_libtika_file(os),
                spec_libtika_file(os),
            ]);
            Some(args)
        },
        _ => None,
    }
}

/// Name the native Tika library is linked by on `os`.
pub open spec fn spec_link_name(os: TargetOs) -> Seq<char> {
    match os {
        TargetOs::Windows => "libtika_native"@,
        _ => "tika_native"@,
    }
}

/// The directives a build script gives Cargo to link against the native Tika
/// library kept in `manifest_dir`: search that directory, link the library
/// dynamically, and on Linux and macOS let the binary find it next to itself.
pub open spec fn spec_link_directives(os: TargetOs, manifest_dir: Seq<char>) -> Seq<Seq<char>> {
    let search = "cargo:rustc-link-search=native="@ + manifest_dir;
    let lib = "cargo:rustc-link-lib=dylib="@ + spec_link_name(os);
    match os {
        TargetOs::Linux => seq![
            search,
            "cargo:rustc-link-arg=-Wl,-Bdynamic"@,
            lib,
            "cargo:rustc-link-arg=-Wl,-rpath,$ORIGIN"@,
        ],
        TargetOs::MacOs => seq![search, lib, "cargo:rustc-link-arg=-Wl,-rpath,@loader_path"@],
        TargetOs::Windows => seq![search, lib],
    }
}

/// The library name the native Tika library is linked by on `os`.
pub fn link_name(os: TargetOs) -> (name: &'static str)
    ensures
        name@ == spec_link_name(os),
{
    match os {
        TargetOs::Windows => "libtika_native",
        _ => "tika_native",
    }
}

/// The name the library is linked by is its file name without the
/// extension, and, except on Windows, without the `lib` prefix as well.
pub proof fn lemma_link_name_matches_file(os: TargetOs)
    ensures
        os == TargetOs::Windows ==> spec_libtika_file(os) == spec_link_name(os) + ".dll"@,
        os == TargetOs::Linux ==> spec_libtika_file(os) == "lib"@ + spec_link_name(os) + ".so"@,
        os == TargetOs::MacOs ==> spec_libtika_file(os) == "lib"@ + spec_link_name(os) + ".dylib"@,
{
    reveal_strlit("libtika_native.dylib");
    reveal_strlit("libtika_native.so");
    reveal_strlit("libtika_native.dll");
    reveal_strlit("libtika_native");
    reveal_strlit("tika_native");
    reveal_strlit("lib");
    reveal_strlit(".dll");
    reveal_strlit(".so");
    reveal_strlit(".dylib");
    match os {
        TargetOs::Windows => assert(spec_libtika_file(os) =~= spec_link_name(os) + ".dll"@),
        TargetOs::Linux => assert(spec_libtika_file(os) =~= "lib"@ + spec_link_name(os) + ".so"@),
        TargetOs::MacOs => assert(spec_libtika_file(os) =~= "lib"@ + spec_link_name(os)
            + ".dylib"@),
    }
}

/// The Cargo directives, one per line, that link the native Tika library.
pub fn link_directives(os: TargetOs, manifest_dir: &str) -> (lines: Vec<String>)
    ensures
        lines@.map_values(|s: String| s@) == spec_link_directives(os, manifest_dir@),
        lines@.len() == match os {
            TargetOs::Linux => 4nat,
            TargetOs::MacOs => 3nat,
            TargetOs::Windows => 2nat,
        },
        os == TargetOs::Linux ==> lines@[3]@ == "cargo:rustc-link-arg=-Wl,-rpath,$ORIGIN"@,
        os == TargetOs::MacOs ==> lines@[2]@ == "cargo:rustc-link-arg=-Wl,-rpath,@loader_path"@,
{
    let mut search = String::from_str("cargo:rustc-link-search=native=");
    search.append(manifest_dir);
    let mut lib = String::from_str("cargo:rustc-link-lib=dylib=");
    lib.append(link_name(os));
    let mut lines: Vec<String> = Vec::new();
    lines.push(search);
    match os {
        TargetOs::Linux => {
            lines.push(String::from_str("cargo:rustc-link-arg=-Wl,-Bdynamic"));
            lines.push(lib);
            lines.push(String::from_str("cargo:rustc-link-arg=-Wl,-rpath,$ORIGIN"));
        },
        TargetOs::MacOs => {
            lines.push(lib);
            lines.push(String::from_str("cargo:rustc-link-arg=-Wl,-rpath,@loader_path"));
        },
        TargetOs::Windows => {
            lines.push(lib);
        },
    }
    assert(lines@.map_values(|s: String| s@) =~= spec_link_directives(os, manifest_dir@));
    lines
}

/// Only the search line depends on the manifest directory: for any two
/// directories the directives have the same number of lines and agree on
/// every line after the first.
pub proof fn lemma_link_directives_same_for_any_dir(os: TargetOs, d1: Seq<char>, d2: Seq<char>)
    ensures
        spec_link_directives(os, d1).len() == spec_link_directives(os, d2).len(),
        forall|i: int|
            1 <= i < spec_link_directives(os, d1).len() ==> #[trigger] spec_link_directives(os, d1)[i]
                == spec_link_directives(os, d2)[i],
{
}

/// On Linux the directives are exactly: search `manifest_dir`, switch to
/// dynamic linking, link `tika_native`, and look for it next to the binary;
/// on macOS the last line looks for it next to the loader.
pub proof fn lemma_link_directives_rpath(manifest_dir: Seq<char>)
    ensures
        spec_link_directives(TargetOs::Linux, manifest_dir) == seq![
            "cargo:rustc-link-search=native="@ + manifest_dir,
            "cargo:rustc-link-arg=-Wl,-Bdynamic"@,
            "cargo:rustc-link-lib=dylib=tika_native"@,
            "cargo:rustc-link-arg=-Wl,-rpath,$ORIGIN"@,
        ],
        spec_link_directives(TargetOs::MacOs, manifest_dir).last()
            == "cargo:rustc-link-arg=-Wl,-rpath,@loader_path"@,
{
    reveal_strlit("cargo:rustc-link-lib=dylib=");
    reveal_strlit("tika_native");
    reveal_strlit("cargo:rustc-link-lib=dylib=tika_native");
    assert("cargo:rustc-link-lib=dylib="@ + "tika_native"@ =~= "cargo:rustc-link-lib=dylib=tika_native"@);
    assert(spec_link_directives(TargetOs::Linux, manifest_dir) =~= seq![
        "cargo:rustc-link-search=native="@ + manifest_dir,
        "cargo:rustc-link-arg=-Wl,-Bdynamic"@,
        "cargo:rustc-link-lib=dylib=tika_native"@,
        "cargo:rustc-link-arg=-Wl,-rpath,$ORIGIN"@,
    ]);
}

/// On every system the directives first add `manifest_dir` to the native
/// search path, and exactly one of them links the Tika library, dynamically,
/// by the system's name for it.
pub proof fn lemma_link_directives_link_libtika(os: TargetOs, manifest_dir: Seq<char>)
    ensures
        spec_link_directives(os, manifest_dir)[0] == "cargo:rustc-link-search=native="@ + manifest_dir,
        exists|i: int|
            0 <= i < spec_link_directives(os, manifest_dir).len() && spec_link_directives(
                os,
                manifest_dir,
            )[i] == "cargo:rustc-link-lib=dylib="@ + spec_link_name(os),
        forall|i: int, j: int|
            0 <= i < j < spec_link_directives(os, manifest_dir).len() ==> !(
            #[trigger] spec_link_directives(os, manifest_dir)[i] == "cargo:rustc-link-lib=dylib="@
                + spec_link_name(os) && #[trigger] spec_link_directives(os, manifest_dir)[j]
                == "cargo:rustc-link-lib=dylib="@ + spec_link_name(os)),
{
    reveal_strlit("cargo:rustc-link-search=native=");
    reveal_strlit("cargo:rustc-link-lib=dylib=");
    reveal_strlit("cargo:rustc-link-arg=-Wl,-Bdynamic");
    reveal_strlit("cargo:rustc-link-arg=-Wl,-rpath,$ORIGIN");
    reveal_strlit("cargo:rustc-link-arg=-Wl,-rpath,@loader_path");
    let d = spec_link_directives(os, manifest_dir);
    let lib = "cargo:rustc-link-lib=dylib="@ + spec_link_name(os);
    // The directives tell their kinds apart at their 18th character.
    assert(lib[17] == 'l');
    assert(("cargo:rustc-link-search=native="@ + manifest_dir)[17] == 's');
    assert("cargo:rustc-link-arg=-Wl,-Bdynamic"@[17] == 'a');
    assert("cargo:rustc-link-arg=-Wl,-rpath,$ORIGIN"@[17] == 'a');
    assert("cargo:rustc-link-arg=-Wl,-rpath,@loader_path"@[17] == 'a');
    match os {
        TargetOs::Linux => assert(d[2] == lib),
        _ => assert(d[1] == lib),
    }
}

} // verus!
