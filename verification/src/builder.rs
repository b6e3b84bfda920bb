//! Names, settings and messages used while a driver is built and installed.

use vstd::prelude::*;
use vstd::string::*;

use crate::manifest::{
    cargo_toml_text, lemma_cargo_toml_lines, lemma_infix_injective, line_pieces, one_line,
};

verus! {

/// The environment variable that names the directory holding the drivers.
pub const DRIVER_PATH_VAR: &'static str = "DYNLINT_DRIVER_PATH";

/// The environment variable that carries the compiler flags of the build.
pub const RUSTFLAGS_VAR: &'static str = "RUSTFLAGS";

/// The directory, inside the home directory, that holds the drivers by default.
pub const DEFAULT_DRIVERS_DIR: &'static str = ".dynlint_drivers";

/// The name of the explanatory file in the default drivers directory.
pub const README_FILE: &'static str = "README.txt";

/// The file name of an installed driver, inside its toolchain's directory.
pub const DRIVER_FILE: &'static str = "dynlint-driver";

/// The message when no temporary directory could be made for the build.
pub const TEMPDIR_FAILED: &'static str = "`tempdir` failed";

/// The warning of a debug build that fetches the driver crate from crates.io.
pub const CRATES_IO_WARNING: &'static str = "In debug mode building driver from `crates.io`";

/// What the build of the driver for `toolchain` is called in progress output.
pub open spec fn build_description_text(toolchain: Seq<char>) -> Seq<char> {
    "driver for toolchain `"@ + toolchain + "`"@
}

/// Linker flags that give the driver an absolute run path into the
/// toolchain's libraries.
pub open spec fn rustflags_text(toolchain_path: Seq<char>) -> Seq<char> {
    "-C link-args=-Wl,-rpath,"@ + toolchain_path + "/lib"@
}

/// The file name of the driver binary that the build produces.
pub open spec fn binary_name_text(toolchain: Seq<char>, exe_suffix: Seq<char>) -> Seq<char> {
    "dynlint_driver-"@ + toolchain + exe_suffix
}

/// Returns what the build of the driver for `toolchain` is called.
pub fn build_description(toolchain: &str) -> (text: String)
    ensures
        text@ == build_description_text(toolchain@),
{
    let mut text = String::from_str("driver for toolchain `");
    text.append(toolchain);
    text.append("`");
    text
}

/// Returns the `RUSTFLAGS` of the driver build for the toolchain installed at
/// `toolchain_path`.
pub fn build_rustflags(toolchain_path: &str) -> (flags: String)
    ensures
        flags@ == rustflags_text(toolchain_path@),
{
    let mut flags = String::from_str("-C link-args=-Wl,-rpath,");
    flags.append(toolchain_path);
    flags.append("/lib");
    flags
}

/// Returns the file name of the built driver for `toolchain`, where
/// executables end in `exe_suffix`.
pub fn driver_binary_name(toolchain: &str, exe_suffix: &str) -> (name: String)
    ensures
        name@ == binary_name_text(toolchain@, exe_suffix@),
{
    let mut name = String::from_str("dynlint_driver-");
    name.append(toolchain);
    name.append(exe_suffix);
    name
}

/// The warning to give before the build: a debug build without a local
/// checkout of the driver crate fetches it from crates.io.
pub fn build_warning(debug_build: bool, manifest_dir: Option<&str>) -> (warning: Option<
    &'static str,
>)
    ensures
        warning is Some <==> debug_build && manifest_dir is None,
        warning matches Some(w) ==> w@ == CRATES_IO_WARNING@,
{
    if debug_build && manifest_dir.is_none() {
        Some(CRATES_IO_WARNING)
    } else {
        None
    }
}

/// Returns the message for a directory at `path` that could not be created.
pub fn create_dir_failed_message(path: &str) -> (message: String)
    ensures
        message@ == "`create_dir_all` failed for `"@ + path@ + "`"@,
{
    let mut message = String::from_str("`create_dir_all` failed for `");
    message.append(path);
    message.append("`");
    message
}

/// Returns the message for a file at `path` that could not be written.
pub fn write_failed_message(path: &str) -> (message: String)
    ensures
        message@ == "`write` failed for `"@ + path@ + "`"@,
{
    let mut message = String::from_str("`write` failed for `");
    message.append(path);
    message.append("`");
    message
}

/// Returns the message for a built driver at `binary` that could not be
/// copied to `driver`.
pub fn copy_failed_message(binary: &str, driver: &str) -> (message: String)
    ensures
        message@ == "Could not copy `"@ + binary@ + "` to `"@ + driver@ + "`"@,
{
    let mut message = String::from_str("Could not copy `");
    message.append(binary);
    message.append("` to `");
    message.append(driver);
    message.append("`");
    message
}


/// The built driver is looked for under the name of the package that the
/// driver manifest declares, for every toolchain: the manifest's name line
/// names exactly the binary (before the executable suffix), and the suffix
/// is only appended.
pub proof fn lemma_binary_is_package_name(
    toolchain: Seq<char>,
    driver_spec: Seq<char>,
    exe_suffix: Seq<char>,
)
    requires
        one_line(toolchain),
        one_line(driver_spec),
    ensures
        line_pieces(cargo_toml_text(toolchain, driver_spec))[2] == "name = \""@ + binary_name_text(
            toolchain,
            Seq::<char>::empty(),
        ) + "\""@,
        binary_name_text(toolchain, exe_suffix) == binary_name_text(toolchain, Seq::<char>::empty())
            + exe_suffix,
{
    lemma_cargo_toml_lines(toolchain, driver_spec);
    reveal_strlit("name = \"dynlint_driver-");
    reveal_strlit("name = \"");
    reveal_strlit("dynlint_driver-");
    assert("name = \"dynlint_driver-"@ =~= "name = \""@ + "dynlint_driver-"@);
    assert("name = \"dynlint_driver-"@ + toolchain + "\""@ =~= "name = \""@ + ("dynlint_driver-"@
        + toolchain + Seq::<char>::empty()) + "\""@);
    assert(binary_name_text(toolchain, exe_suffix) =~= binary_name_text(
        toolchain,
        Seq::<char>::empty(),
    ) + exe_suffix);
}

/// Different toolchains build binaries of different names: the toolchain can
/// be read back from the name.
pub proof fn lemma_binary_name_injective(t1: Seq<char>, t2: Seq<char>, exe_suffix: Seq<char>)
    requires
        binary_name_text(t1, exe_suffix) == binary_name_text(t2, exe_suffix),
    ensures
        t1 == t2,
{
    lemma_infix_injective("dynlint_driver-"@, t1, t2, exe_suffix);
}

} // verus!
