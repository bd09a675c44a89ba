use tika_build::native::{
    build_output_path, gradle_build_args, gradlew_file_name, graalvm_jdk_dir, install_name_args,
    install_name_tool_program, java_home_var,
    libtika_file_name, link_directives, link_name, shared_library_copies, tika_native_dir, LibraryCopy,
};
use tika_build::platform::TargetOs;

fn copy(from: &str, to: &str) -> LibraryCopy {
    LibraryCopy { from: from.to_string(), to: to.to_string() }
}

#[test]
fn build_directories_and_gradle() {
    assert_eq!(graalvm_jdk_dir(), "./graalvm_jdk");
    assert_eq!(tika_native_dir(), "./tika-native");
    assert_eq!(gradlew_file_name(TargetOs::Windows), "gradlew.bat");
    assert_eq!(gradlew_file_name(TargetOs::Linux), "gradlew");
    assert_eq!(gradle_build_args(), vec!["--no-daemon", "nativeCompile"]);
    assert_eq!(java_home_var(), "JAVA_HOME");
    assert_eq!(install_name_tool_program(), "install_name_tool");
}

#[test]
fn library_names() {
    assert_eq!(libtika_file_name(TargetOs::MacOs), "libtika_native.dylib");
    assert_eq!(libtika_file_name(TargetOs::Linux), "libtika_native.so");
    assert_eq!(libtika_file_name(TargetOs::Windows), "libtika_native.dll");
    assert_eq!(
        build_output_path("libtika_native.so"),
        "./tika-native/build/native/nativeCompile/libtika_native.so"
    );
}

#[test]
fn shared_libraries_copied_per_system() {
    assert_eq!(
        shared_library_copies(TargetOs::MacOs),
        vec![copy("./tika-native/build/native/nativeCompile/libtika_native.dylib", "libtika_native.dylib")]
    );
    assert_eq!(
        shared_library_copies(TargetOs::Linux),
        vec![
            copy("./tika-native/build/native/nativeCompile/libtika_native.so", "libtika_native.so"),
            copy("./tika-native/build/native/nativeCompile/libjava.so", "libjava.so"),
            copy("./tika-native/build/native/nativeCompile/libjvm.so", "libjvm.so"),
            copy("./tika-native/build/native/nativeCompile/libawt.so", "libawt.so"),
            copy("./tika-native/build/native/nativeCompile/libawt_headless.so", "libawt_headless.so"),
        ]
    );
    assert_eq!(
        shared_library_copies(TargetOs::Windows),
        vec![
            copy("./tika-native/build/native/nativeCompile/libtika_native.dll", "libtika_native.dll"),
            copy("./tika-native/build/native/nativeCompile/java.dll", "java.dll"),
            copy("./tika-native/build/native/nativeCompile/jvm.dll", "jvm.dll"),
            copy("./tika-native/build/native/nativeCompile/awt.dll", "awt.dll"),
            copy("./tika-native/build/native/nativeCompile/libtika_native.lib", "libtika_native.lib"),
        ]
    );
}

#[test]
fn copies_are_distinct_and_libtika_first() {
    for os in [TargetOs::MacOs, TargetOs::Linux, TargetOs::Windows] {
        let copies = shared_library_copies(os);
        assert_eq!(copies[0].to, libtika_file_name(os));
        for (i, a) in copies.iter().enumerate() {
            assert_eq!(a.from, build_output_path(&a.to));
            for b in copies.iter().skip(i + 1) {
                assert_ne!(a.to, b.to);
            }
        }
    }
}

#[test]
fn install_name_is_rewritten_on_macos_only() {
    assert_eq!(
        install_name_args(TargetOs::MacOs),
        Some(vec![
            "-id".to_string(),
            "@rpath/libtika_native.dylib".to_string(),
            "libtika_native.dylib".to_string()
        ])
    );
    assert_eq!(install_name_args(TargetOs::Linux), None);
    assert_eq!(install_name_args(TargetOs::Windows), None);
}

#[test]
fn link_directives_per_system() {
    assert_eq!(link_name(TargetOs::Windows), "libtika_native");
    assert_eq!(link_name(TargetOs::Linux), "tika_native");
    assert_eq!(
        link_directives(TargetOs::Linux, "/src/app"),
        vec![
            "cargo:rustc-link-search=native=/src/app",
            "cargo:rustc-link-arg=-Wl,-Bdynamic",
            "cargo:rustc-link-lib=dylib=tika_native",
            "cargo:rustc-link-arg=-Wl,-rpath,$ORIGIN",
        ]
    );
    assert_eq!(
        link_directives(TargetOs::MacOs, "/src/app"),
        vec![
            "cargo:rustc-link-search=native=/src/app",
            "cargo:rustc-link-lib=dylib=tika_native",
            "cargo:rustc-link-arg=-Wl,-rpath,@loader_path",
        ]
    );
    assert_eq!(
        link_directives(TargetOs::Windows, "C:\\src"),
        vec!["cargo:rustc-link-search=native=C:\\src", "cargo:rustc-link-lib=dylib=libtika_native"]
    );
}
