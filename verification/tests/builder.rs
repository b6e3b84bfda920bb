use dynlint::builder::{
    build_description, build_rustflags, build_warning, copy_failed_message,
    create_dir_failed_message, driver_binary_name, write_failed_message, CRATES_IO_WARNING,
};

#[test]
fn description_names_toolchain() {
    assert_eq!(build_description("nightly"), "driver for toolchain `nightly`");
}

#[test]
fn rustflags_set_absolute_rpath() {
    assert_eq!(
        build_rustflags("/home/u/.rustup/toolchains/nightly-x86_64"),
        "-C link-args=-Wl,-rpath,/home/u/.rustup/toolchains/nightly-x86_64/lib"
    );
}

#[test]
fn binary_name_has_toolchain_and_suffix() {
    assert_eq!(driver_binary_name("nightly", ""), "dynlint_driver-nightly");
    assert_eq!(driver_binary_name("nightly", ".exe"), "dynlint_driver-nightly.exe");
}

#[test]
fn warning_only_for_debug_builds_from_crates_io() {
    assert_eq!(build_warning(true, None), Some(CRATES_IO_WARNING));
    assert_eq!(build_warning(true, Some("/src")), None);
    assert_eq!(build_warning(false, None), None);
    assert_eq!(CRATES_IO_WARNING, "In debug mode building driver from `crates.io`");
}

#[test]
fn failure_messages() {
    assert_eq!(create_dir_failed_message("/tmp/x"), "`create_dir_all` failed for `/tmp/x`");
    assert_eq!(write_failed_message("/tmp/x/README.txt"), "`write` failed for `/tmp/x/README.txt`");
    assert_eq!(copy_failed_message("/t/a", "/d/b"), "Could not copy `/t/a` to `/d/b`");
}
