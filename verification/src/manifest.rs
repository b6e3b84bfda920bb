//! The text of the small Cargo package from which a driver is built.

use vstd::prelude::*;
use vstd::string::*;

verus! {

broadcast use vstd::seq::group_seq_axioms;

/// The text of `README.txt` in the directory that holds the drivers.
pub const README_TXT: &'static str =
    "\nThis directory contains Rust compiler drivers used by Dynlint\n(https://github.com/khulnasoft-lab/dynlint).\n\nDeleting this directory will cause Dynlint to rebuild the drivers\nthe next time it needs them, but will have no ill effects.\n";

/// The text of the driver package's `src/main.rs`.
pub const MAIN_RS: &'static str =
    "\nuse anyhow::Result;\nuse std::env;\nuse std::ffi::OsString;\n\npub fn main() -> Result<()> {\n    env_logger::init();\n\n    let args: Vec<_> = env::args().map(OsString::from).collect();\n\n    dynlint_driver::dynlint_driver(&args)\n}\n";

/// The name of the driver package's manifest.
pub const CARGO_TOML_FILE: &'static str = "Cargo.toml";

/// The name of the file that pins the driver package's toolchain.
pub const RUST_TOOLCHAIN_FILE: &'static str = "rust-toolchain";

/// The driver package's source directory.
pub const SRC_DIR: &'static str = "src";

/// The name of the driver package's main source file, inside `SRC_DIR`.
pub const MAIN_RS_FILE: &'static str = "main.rs";

/// The manifest of the driver package for `toolchain`, whose dependency on
/// the driver crate is described by `driver_spec`.
pub open spec fn cargo_toml_text(toolchain: Seq<char>, driver_spec: Seq<char>) -> Seq<char> {
    "\n[package]\nname = \"dynlint_driver-"@ + toolchain
        + "\"\nversion = \"0.1.0\"\nedition = \"2018\"\n\n[dependencies]\nanyhow = \"1.0\"\nenv_logger = \"0.10\"\ndynlint_driver = { "@
        + driver_spec + " }\n"@
}

/// The `rust-toolchain` file that pins the driver package to `toolchain`.
pub open spec fn rust_toolchain_text(toolchain: Seq<char>) -> Seq<char> {
    "\n[toolchain]\nchannel = \""@ + toolchain
        + "\"\ncomponents = [\"llvm-tools-preview\", \"rustc-dev\"]\n"@
}

/// `s` with every backslash doubled.
pub open spec fn escape_backslashes_spec(s: Seq<char>) -> Seq<char>
    decreases s.len(),
{
    if s.len() == 0 {
        seq![]
    } else {
        escape_backslashes_spec(s.drop_last()) + if s.last() == '\\' {
            seq!['\\', '\\']
        } else {
            seq![s.last()]
        }
    }
}

/// The dependency on the driver crate: the exact `version`, and the local
/// checkout in `manifest_dir` when there is one.
pub open spec fn driver_spec_text(version: Seq<char>, manifest_dir: Option<Seq<char>>) -> Seq<
    char,
> {
    "version = \"="@ + version + "\""@ + match manifest_dir {
        None => Seq::<char>::empty(),
        Some(dir) => ", path = \""@ + escape_backslashes_spec(dir) + "\""@,
    }
}

/// Returns the `Cargo.toml` of the driver package for `toolchain`.
pub fn cargo_toml(toolchain: &str, dynlint_driver_spec: &str) -> (text: String)
    ensures
        text@ == cargo_toml_text(toolchain@, dynlint_driver_spec@),
{
    let mut text = String::from_str("\n[package]\nname = \"dynlint_driver-");
    text.append(toolchain);
    text.append(
        "\"\nversion = \"0.1.0\"\nedition = \"2018\"\n\n[dependencies]\nanyhow = \"1.0\"\nenv_logger = \"0.10\"\ndynlint_driver = { ",
    );
    text.append(dynlint_driver_spec);
    text.append(" }\n");
    text
}

/// Returns the `rust-toolchain` file of the driver package for `toolchain`.
pub fn rust_toolchain(toolchain: &str) -> (text: String)
    ensures
        text@ == rust_toolchain_text(toolchain@),
{
    let mut text = String::from_str("\n[toolchain]\nchannel = \"");
    text.append(toolchain);
    text.append("\"\ncomponents = [\"llvm-tools-preview\", \"rustc-dev\"]\n");
    text
}

proof fn lemma_escape_concat(a: Seq<char>, b: Seq<char>)
    ensures
        escape_backslashes_spec(a + b) == escape_backslashes_spec(a) + escape_backslashes_spec(b),
    decreases b.len(),
{
    if b.len() == 0 {
        assert(a + b =~= a);
        assert(escape_backslashes_spec(a) + escape_backslashes_spec(b) =~= escape_backslashes_spec(
            a,
        ));
    } else {
        assert((a + b).drop_last() =~= a + b.drop_last());
        assert((a + b).last() == b.last());
        lemma_escape_concat(a, b.drop_last());
        let tail = if b.last() == '\\' {
            seq!['\\', '\\']
        } else {
            seq![b.last()]
        };
        assert(escape_backslashes_spec(a) + escape_backslashes_spec(b.drop_last()) + tail
            =~= escape_backslashes_spec(a) + (escape_backslashes_spec(b.drop_last()) + tail));
    }
}

proof fn lemma_escape_plain(q: Seq<char>)
    requires
        forall|i: int| 0 <= i < q.len() ==> #[trigger] q[i] != '\\',
    ensures
        escape_backslashes_spec(q) == q,
    decreases q.len(),
{
    if q.len() > 0 {
        lemma_escape_plain(q.drop_last());
        assert(q.drop_last().push(q.last()) =~= q);
    }
}

/// Returns `path` with every backslash doubled, as a TOML string needs it.
pub fn escape_backslashes(path: &str) -> (escaped: String)
    ensures
        escaped@ == escape_backslashes_spec(path@),
{
    let n = path.unicode_len();
    let mut out = String::new();
    let mut start: usize = 0;
    let mut i: usize = 0;
    proof {
        reveal_strlit("\\");
        assert(path@.subrange(0, 0) =~= Seq::<char>::empty());
    }
    while i < n
        invariant
            n == path@.len(),
            start <= i <= n,
            out@ == escape_backslashes_spec(path@.subrange(0, start as int)),
            forall|j: int| start <= j < i ==> path@[j] != '\\',
            "\\"@ == seq!['\\'],
        decreases n - i,
    {
        let c = path.get_char(i);
        if c == '\\' {
            let piece = path.substring_char(start, i + 1);
            out.append(piece);
            out.append("\\");
            proof {
                let s = path@;
                let plain = s.subrange(start as int, i as int);
                assert forall|j: int| 0 <= j < plain.len() implies #[trigger] plain[j] != '\\' by {
                    assert(plain[j] == s[start + j]);
                }
                lemma_escape_plain(plain);
                lemma_escape_concat(s.subrange(0, start as int), plain);
                assert(s.subrange(0, start as int) + plain =~= s.subrange(0, i as int));
                assert(s.subrange(0, i + 1).drop_last() =~= s.subrange(0, i as int));
                assert(piece@ =~= plain.push('\\'));
                assert(out@ =~= escape_backslashes_spec(s.subrange(0, i + 1)));
            }
            start = i + 1;
        }
        i = i + 1;
    }
    let rest = path.substring_char(start, n);
    out.append(rest);
    proof {
        let s = path@;
        let plain = s.subrange(start as int, n as int);
        assert forall|j: int| 0 <= j < plain.len() implies #[trigger] plain[j] != '\\' by {
            assert(plain[j] == s[start + j]);
        }
        lemma_escape_plain(plain);
        lemma_escape_concat(s.subrange(0, start as int), plain);
        assert(s.subrange(0, start as int) + plain =~= s);
    }
    out
}

/// Returns the description of the driver crate dependency: the exact
/// `version`, and the local checkout in `manifest_dir` when there is one.
pub fn dynlint_driver_spec(version: &str, manifest_dir: Option<&str>) -> (spec: String)
    ensures
        spec@ == driver_spec_text(
            version@,
            match manifest_dir {
                None => None,
                Some(dir) => Some(dir@),
            },
        ),
{
    let mut spec = String::from_str("version = \"=");
    spec.append(version);
    spec.append("\"");
    match manifest_dir {
        None => {
            assert(spec@ =~= spec@ + Seq::<char>::empty());
        },
        Some(dir) => {
            let escaped = escape_backslashes(dir);
            let ghost before = spec@;
            spec.append(", path = \"");
            spec.append(escaped.as_str());
            spec.append("\"");
            assert(spec@ =~= before + (", path = \""@ + escaped@ + "\""@));
        },
    }
    spec
}

/// The three files of a driver package.
pub struct DriverPackage {
    /// The text of `Cargo.toml`.
    pub cargo_toml: String,
    /// The text of `rust-toolchain`.
    pub rust_toolchain: String,
    /// The text of `src/main.rs`.
    pub main_rs: String,
}

/// Returns the files of the package that builds the driver for `toolchain`
/// against the driver crate of `version` (from `manifest_dir` when given).
pub fn driver_package(toolchain: &str, version: &str, manifest_dir: Option<&str>) -> (package:
    DriverPackage)
    ensures
        package.cargo_toml@ == cargo_toml_text(
            toolchain@,
            driver_spec_text(
                version@,
                match manifest_dir {
                    None => None,
                    Some(dir) => Some(dir@),
                },
            ),
        ),
        package.rust_toolchain@ == rust_toolchain_text(toolchain@),
        package.main_rs@ == MAIN_RS@,
{
    let spec = dynlint_driver_spec(version, manifest_dir);
    DriverPackage {
        cargo_toml: cargo_toml(toolchain, spec.as_str()),
        rust_toolchain: rust_toolchain(toolchain),
        main_rs: String::from_str(MAIN_RS),
    }
}


// ---------------------------------------------------------------------------
// The manifest line by line
// ---------------------------------------------------------------------------

/// The pieces of `s` between line breaks; after a final line break comes an
/// empty piece.
pub open spec fn line_pieces(s: Seq<char>) -> Seq<Seq<char>>
    decreases s.len(),
{
    if s.len() == 0 {
        seq![Seq::<char>::empty()]
    } else if s.last() == '\n' {
        line_pieces(s.drop_last()).push(Seq::<char>::empty())
    } else {
        let pieces = line_pieces(s.drop_last());
        pieces.update(pieces.len() - 1, pieces.last().push(s.last()))
    }
}

/// Whether `s` holds no line break.
pub open spec fn one_line(s: Seq<char>) -> bool {
    forall|i: int| 0 <= i < s.len() ==> #[trigger] s[i] != '\n'
}

pub(crate) proof fn lemma_pieces_of_line(s: Seq<char>)
    requires
        one_line(s),
    ensures
        line_pieces(s) == seq![s],
    decreases s.len(),
{
    if s.len() > 0 {
        lemma_pieces_of_line(s.drop_last());
        assert(s[s.len() - 1] != '\n');
        assert(s.drop_last().push(s.last()) =~= s);
        assert(seq![s.drop_last()].update(0, s.drop_last().push(s.last())) =~= seq![s]);
    } else {
        assert(s =~= Seq::<char>::empty());
    }
}

pub(crate) proof fn lemma_pieces_split(a: Seq<char>, b: Seq<char>)
    ensures
        line_pieces(a + seq!['\n'] + b) == line_pieces(a) + line_pieces(b),
    decreases b.len(),
{
    let nl = seq!['\n'];
    if b.len() == 0 {
        assert(a + nl + b =~= a + nl);
        assert((a + nl).drop_last() =~= a);
        assert(line_pieces(a) + line_pieces(b) =~= line_pieces(a).push(Seq::<char>::empty()));
    } else {
        lemma_pieces_split(a, b.drop_last());
        assert((a + nl + b).drop_last() =~= a + nl + b.drop_last());
        assert((a + nl + b).last() == b.last());
        lemma_pieces_nonempty(b.drop_last());
        lemma_pieces_nonempty(a);
        if b.last() == '\n' {
            assert(line_pieces(a) + line_pieces(b) =~= (line_pieces(a) + line_pieces(
                b.drop_last(),
            )).push(Seq::<char>::empty()));
        } else {
            let pa = line_pieces(a);
            let pb = line_pieces(b.drop_last());
            assert(pa + pb.update(pb.len() - 1, pb.last().push(b.last())) =~= (pa + pb).update(
                (pa + pb).len() - 1,
                (pa + pb).last().push(b.last()),
            ));
        }
    }
}

pub(crate) proof fn lemma_pieces_nonempty(s: Seq<char>)
    ensures
        line_pieces(s).len() > 0,
    decreases s.len(),
{
    if s.len() > 0 {
        lemma_pieces_nonempty(s.drop_last());
    }
}

pub(crate) proof fn lemma_one_line_concat(a: Seq<char>, b: Seq<char>)
    requires
        one_line(a),
        one_line(b),
    ensures
        one_line(a + b),
{
    assert forall|i: int| 0 <= i < (a + b).len() implies #[trigger] (a + b)[i] != '\n' by {
        if i < a.len() {
            assert((a + b)[i] == a[i]);
        } else {
            assert((a + b)[i] == b[i - a.len()]);
        }
    }
}

proof fn lemma_cargo_toml_literals()
    ensures
        "\n[package]\nname = \"dynlint_driver-"@ == Seq::<char>::empty() + seq!['\n'] + "[package]"@
            + seq!['\n'] + "name = \"dynlint_driver-"@,
        "\"\nversion = \"0.1.0\"\nedition = \"2018\"\n\n[dependencies]\nanyhow = \"1.0\"\nenv_logger = \"0.10\"\ndynlint_driver = { "@
            == "\""@ + seq!['\n'] + "version = \"0.1.0\""@ + seq!['\n'] + "edition = \"2018\""@ + seq![
            '\n',
        ] + Seq::<char>::empty() + seq!['\n'] + "[dependencies]"@ + seq!['\n'] + "anyhow = \"1.0\""@
            + seq!['\n'] + "env_logger = \"0.10\""@ + seq!['\n'] + "dynlint_driver = { "@,
        " }\n"@ == " }"@ + seq!['\n'],
        one_line("[package]"@),
        one_line("name = \"dynlint_driver-"@),
        one_line("\""@),
        one_line("version = \"0.1.0\""@),
        one_line("edition = \"2018\""@),
        one_line("[dependencies]"@),
        one_line("anyhow = \"1.0\""@),
        one_line("env_logger = \"0.10\""@),
        one_line("dynlint_driver = { "@),
        one_line(" }"@),
{
    reveal_strlit("\n[package]\nname = \"dynlint_driver-");
    reveal_strlit(
        "\"\nversion = \"0.1.0\"\nedition = \"2018\"\n\n[dependencies]\nanyhow = \"1.0\"\nenv_logger = \"0.10\"\ndynlint_driver = { ",
    );
    reveal_strlit(" }\n");
    reveal_strlit("[package]");
    reveal_strlit("name = \"dynlint_driver-");
    reveal_strlit("\"");
    reveal_strlit("version = \"0.1.0\"");
    reveal_strlit("edition = \"2018\"");
    reveal_strlit("[dependencies]");
    reveal_strlit("anyhow = \"1.0\"");
    reveal_strlit("env_logger = \"0.10\"");
    reveal_strlit("dynlint_driver = { ");
    reveal_strlit(" }");
    assert("\n[package]\nname = \"dynlint_driver-"@ =~= Seq::<char>::empty() + seq!['\n'] + "[package]"@
        + seq!['\n'] + "name = \"dynlint_driver-"@);
    assert("\"\nversion = \"0.1.0\"\nedition = \"2018\"\n\n[dependencies]\nanyhow = \"1.0\"\nenv_logger = \"0.10\"\ndynlint_driver = { "@
        =~= "\""@ + seq!['\n'] + "version = \"0.1.0\""@ + seq!['\n'] + "edition = \"2018\""@ + seq![
        '\n',
    ] + Seq::<char>::empty() + seq!['\n'] + "[dependencies]"@ + seq!['\n'] + "anyhow = \"1.0\""@
        + seq!['\n'] + "env_logger = \"0.10\""@ + seq!['\n'] + "dynlint_driver = { "@);
    assert(" }\n"@ =~= " }"@ + seq!['\n']);
}

/// The manifest has one entry per line, and the two texts it is made from
/// each stay on their own line: the toolchain only on the package name line
/// (the third), the driver crate's description only on its dependency line
/// (the tenth). The text ends with a line break.
pub proof fn lemma_cargo_toml_lines(toolchain: Seq<char>, driver_spec: Seq<char>)
    requires
        one_line(toolchain),
        one_line(driver_spec),
    ensures
        line_pieces(cargo_toml_text(toolchain, driver_spec)) == seq![
            Seq::<char>::empty(),
            "[package]"@,
            "name = \"dynlint_driver-"@ + toolchain + "\""@,
            "version = \"0.1.0\""@,
            "edition = \"2018\""@,
            Seq::<char>::empty(),
            "[dependencies]"@,
            "anyhow = \"1.0\""@,
            "env_logger = \"0.10\""@,
            "dynlint_driver = { "@ + driver_spec + " }"@,
            Seq::<char>::empty(),
        ],
{
    lemma_cargo_toml_literals();
    let nl = seq!['\n'];
    let e = Seq::<char>::empty();
    let l1 = "[package]"@;
    let name = "name = \"dynlint_driver-"@;
    let quote = "\""@;
    let l3 = "version = \"0.1.0\""@;
    let l4 = "edition = \"2018\""@;
    let l6 = "[dependencies]"@;
    let l7 = "anyhow = \"1.0\""@;
    let l8 = "env_logger = \"0.10\""@;
    let dep = "dynlint_driver = { "@;
    let close = " }"@;
    let l2 = name + toolchain + quote;
    let l9 = dep + driver_spec + close;
    lemma_one_line_concat(name, toolchain);
    lemma_one_line_concat(name + toolchain, quote);
    lemma_one_line_concat(dep, driver_spec);
    lemma_one_line_concat(dep + driver_spec, close);
    let t1 = e + nl + l1;
    let t2 = t1 + nl + l2;
    let t3 = t2 + nl + l3;
    let t4 = t3 + nl + l4;
    let t5 = t4 + nl + e;
    let t6 = t5 + nl + l6;
    let t7 = t6 + nl + l7;
    let t8 = t7 + nl + l8;
    let t9 = t8 + nl + l9;
    let t10 = t9 + nl + e;
    lemma_cargo_toml_is_lines(toolchain, driver_spec);
    assert(e =~= Seq::<char>::empty());
    lemma_pieces_of_line(e);
    lemma_pieces_of_line(l1);
    lemma_pieces_of_line(l2);
    lemma_pieces_of_line(l3);
    lemma_pieces_of_line(l4);
    lemma_pieces_of_line(l6);
    lemma_pieces_of_line(l7);
    lemma_pieces_of_line(l8);
    lemma_pieces_of_line(l9);
    lemma_pieces_split(e, l1);
    lemma_pieces_split(t1, l2);
    lemma_pieces_split(t2, l3);
    lemma_pieces_split(t3, l4);
    lemma_pieces_split(t4, e);
    lemma_pieces_split(t5, l6);
    lemma_pieces_split(t6, l7);
    lemma_pieces_split(t7, l8);
    lemma_pieces_split(t8, l9);
    lemma_pieces_split(t9, e);
    assert(line_pieces(t10) =~= seq![e, l1, l2, l3, l4, e, l6, l7, l8, l9, e]);
}

/// The manifest's text, written line by line.
proof fn lemma_cargo_toml_is_lines(toolchain: Seq<char>, driver_spec: Seq<char>)
    ensures
        cargo_toml_text(toolchain, driver_spec) == Seq::<char>::empty() + seq!['\n'] + "[package]"@
            + seq!['\n'] + ("name = \"dynlint_driver-"@ + toolchain + "\""@) + seq!['\n']
            + "version = \"0.1.0\""@ + seq!['\n'] + "edition = \"2018\""@ + seq!['\n']
            + Seq::<char>::empty() + seq!['\n'] + "[dependencies]"@ + seq!['\n'] + "anyhow = \"1.0\""@
            + seq!['\n'] + "env_logger = \"0.10\""@ + seq!['\n'] + ("dynlint_driver = { "@
            + driver_spec + " }"@) + seq!['\n'] + Seq::<char>::empty(),
{
    lemma_cargo_toml_literals();
    assert(cargo_toml_text(toolchain, driver_spec) =~= Seq::<char>::empty() + seq!['\n']
        + "[package]"@ + seq!['\n'] + ("name = \"dynlint_driver-"@ + toolchain + "\""@) + seq!['\n']
        + "version = \"0.1.0\""@ + seq!['\n'] + "edition = \"2018\""@ + seq!['\n']
        + Seq::<char>::empty() + seq!['\n'] + "[dependencies]"@ + seq!['\n'] + "anyhow = \"1.0\""@
        + seq!['\n'] + "env_logger = \"0.10\""@ + seq!['\n'] + ("dynlint_driver = { "@
        + driver_spec + " }"@) + seq!['\n'] + Seq::<char>::empty());
}


/// A text put between a fixed prefix and a fixed suffix can be read back.
pub(crate) proof fn lemma_infix_injective(p: Seq<char>, a: Seq<char>, b: Seq<char>, q: Seq<char>)
    requires
        p + a + q == p + b + q,
    ensures
        a == b,
{
    let x = p + a + q;
    assert((p + a + q).len() == p.len() + a.len() + q.len());
    assert((p + b + q).len() == p.len() + b.len() + q.len());
    assert(a.len() == b.len());
    assert(x.subrange(p.len() as int, (p.len() + a.len()) as int) =~= a);
    assert((p + b + q).subrange(p.len() as int, (p.len() + b.len()) as int) =~= b);
}

proof fn lemma_rust_toolchain_literals()
    ensures
        "\n[toolchain]\nchannel = \""@ == Seq::<char>::empty() + seq!['\n'] + "[toolchain]"@ + seq![
            '\n',
        ] + "channel = \""@,
        "\"\ncomponents = [\"llvm-tools-preview\", \"rustc-dev\"]\n"@ == "\""@ + seq!['\n']
            + "components = [\"llvm-tools-preview\", \"rustc-dev\"]"@ + seq!['\n'],
        one_line("[toolchain]"@),
        one_line("channel = \""@),
        one_line("\""@),
        one_line("components = [\"llvm-tools-preview\", \"rustc-dev\"]"@),
{
    reveal_strlit("\n[toolchain]\nchannel = \"");
    reveal_strlit("\"\ncomponents = [\"llvm-tools-preview\", \"rustc-dev\"]\n");
    reveal_strlit("[toolchain]");
    reveal_strlit("channel = \"");
    reveal_strlit("\"");
    reveal_strlit("components = [\"llvm-tools-preview\", \"rustc-dev\"]");
    assert("\n[toolchain]\nchannel = \""@ =~= Seq::<char>::empty() + seq!['\n'] + "[toolchain]"@
        + seq!['\n'] + "channel = \""@);
    assert("\"\ncomponents = [\"llvm-tools-preview\", \"rustc-dev\"]\n"@ =~= "\""@ + seq!['\n']
        + "components = [\"llvm-tools-preview\", \"rustc-dev\"]"@ + seq!['\n']);
}

/// The `rust-toolchain` file pins the toolchain verbatim: its third line is
/// `channel = "<toolchain>"` with the toolchain unchanged between the quotes,
/// and the other lines do not depend on it.
pub proof fn lemma_rust_toolchain_lines(toolchain: Seq<char>)
    requires
        one_line(toolchain),
    ensures
        line_pieces(rust_toolchain_text(toolchain)) == seq![
            Seq::<char>::empty(),
            "[toolchain]"@,
            "channel = \""@ + toolchain + "\""@,
            "components = [\"llvm-tools-preview\", \"rustc-dev\"]"@,
            Seq::<char>::empty(),
        ],
{
    lemma_rust_toolchain_literals();
    let nl = seq!['\n'];
    let e = Seq::<char>::empty();
    let l1 = "[toolchain]"@;
    let l2 = "channel = \""@ + toolchain + "\""@;
    let l3 = "components = [\"llvm-tools-preview\", \"rustc-dev\"]"@;
    lemma_one_line_concat("channel = \""@, toolchain);
    lemma_one_line_concat("channel = \""@ + toolchain, "\""@);
    let t1 = e + nl + l1;
    let t2 = t1 + nl + l2;
    let t3 = t2 + nl + l3;
    let t4 = t3 + nl + e;
    assert(rust_toolchain_text(toolchain) =~= t4);
    assert(e =~= Seq::<char>::empty());
    lemma_pieces_of_line(e);
    lemma_pieces_of_line(l1);
    lemma_pieces_of_line(l2);
    lemma_pieces_of_line(l3);
    lemma_pieces_split(e, l1);
    lemma_pieces_split(t1, l2);
    lemma_pieces_split(t2, l3);
    lemma_pieces_split(t3, e);
    assert(line_pieces(t4) =~= seq![e, l1, l2, l3, e]);
}

/// Different toolchains give different `rust-toolchain` files: the toolchain
/// can be read back from the file.
pub proof fn lemma_rust_toolchain_injective(t1: Seq<char>, t2: Seq<char>)
    requires
        rust_toolchain_text(t1) == rust_toolchain_text(t2),
    ensures
        t1 == t2,
{
    lemma_infix_injective(
        "\n[toolchain]\nchannel = \""@,
        t1,
        t2,
        "\"\ncomponents = [\"llvm-tools-preview\", \"rustc-dev\"]\n"@,
    );
}

/// Different toolchains give different manifests, whatever the driver
/// crate's description: the toolchain can be read back from the manifest.
pub proof fn lemma_cargo_toml_names_toolchain(t1: Seq<char>, t2: Seq<char>, driver_spec: Seq<char>)
    requires
        cargo_toml_text(t1, driver_spec) == cargo_toml_text(t2, driver_spec),
    ensures
        t1 == t2,
{
    let p = "\n[package]\nname = \"dynlint_driver-"@;
    let q = "\"\nversion = \"0.1.0\"\nedition = \"2018\"\n\n[dependencies]\nanyhow = \"1.0\"\nenv_logger = \"0.10\"\ndynlint_driver = { "@
        + driver_spec + " }\n"@;
    assert(cargo_toml_text(t1, driver_spec) =~= p + t1 + q);
    assert(cargo_toml_text(t2, driver_spec) =~= p + t2 + q);
    lemma_infix_injective(p, t1, t2, q);
}

} // verus!
