use dynlint::manifest::{
    cargo_toml, driver_package, dynlint_driver_spec, escape_backslashes, rust_toolchain, MAIN_RS,
    README_TXT,
};

#[test]
fn cargo_toml_names_package_after_toolchain() {
    let text = cargo_toml("nightly-2024-01-01", "version = \"=2.1.0\"");
    assert_eq!(
        text,
        "\n[package]\nname = \"dynlint_driver-nightly-2024-01-01\"\nversion = \"0.1.0\"\nedition = \"2018\"\n\n[dependencies]\nanyhow = \"1.0\"\nenv_logger = \"0.10\"\ndynlint_driver = { version = \"=2.1.0\" }\n"
    );
}

#[test]
fn rust_toolchain_pins_channel_and_components() {
    assert_eq!(
        rust_toolchain("nightly"),
        "\n[toolchain]\nchannel = \"nightly\"\ncomponents = [\"llvm-tools-preview\", \"rustc-dev\"]\n"
    );
}

#[test]
fn escape_doubles_every_backslash() {
    assert_eq!(escape_backslashes("C:\\a\\b"), "C:\\\\a\\\\b");
    assert_eq!(escape_backslashes("\\\\"), "\\\\\\\\");
    assert_eq!(escape_backslashes("/home/user/dynlint"), "/home/user/dynlint");
    assert_eq!(escape_backslashes(""), "");
    assert_eq!(escape_backslashes("\\ü\\"), "\\\\ü\\\\");
}

#[test]
fn driver_spec_without_checkout() {
    assert_eq!(dynlint_driver_spec("2.1.0", None), "version = \"=2.1.0\"");
}

#[test]
fn driver_spec_with_checkout() {
    assert_eq!(
        dynlint_driver_spec("2.1.0", Some("C:\\src\\driver")),
        "version = \"=2.1.0\", path = \"C:\\\\src\\\\driver\""
    );
}

#[test]
fn driver_package_holds_three_files() {
    let package = driver_package("nightly", "2.1.0", Some("/src/driver"));
    assert_eq!(
        package.cargo_toml,
        cargo_toml("nightly", "version = \"=2.1.0\", path = \"/src/driver\"")
    );
    assert_eq!(package.rust_toolchain, rust_toolchain("nightly"));
    assert_eq!(package.main_rs, MAIN_RS);
    assert!(package.main_rs.contains("dynlint_driver::dynlint_driver(&args)"));
}

#[test]
fn readme_explains_the_directory() {
    assert!(README_TXT.starts_with("\nThis directory contains Rust compiler drivers used by Dynlint\n"));
    assert!(README_TXT.ends_with("but will have no ill effects.\n"));
}

#[test]
fn cargo_toml_keeps_inputs_on_their_lines() {
    let a = cargo_toml("nightly", "version = \"=2.1.0\"");
    let b = cargo_toml("nightly", "version = \"=2.1.0\", path = \"/p\"");
    let c = cargo_toml("stable", "version = \"=2.1.0\"");
    let (la, lb, lc): (Vec<&str>, Vec<&str>, Vec<&str>) =
        (a.lines().collect(), b.lines().collect(), c.lines().collect());
    assert_eq!(la.len(), 10);
    for i in 0..10 {
        if i != 9 {
            assert_eq!(la[i], lb[i]);
        }
        if i != 2 {
            assert_eq!(la[i], lc[i]);
        }
    }
    assert_eq!(la[2], "name = \"dynlint_driver-nightly\"");
    assert_eq!(lb[9], "dynlint_driver = { version = \"=2.1.0\", path = \"/p\" }");
}
