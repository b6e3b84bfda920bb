//! Reading the version that a driver reports and deciding whether the driver
//! is older than the running tool.

use vstd::prelude::*;
use vstd::string::*;
use vstd::utf8::*;

use crate::precedence::{
    is_numeric_id, split_dots,
    lemma_version_order_reflexive, lemma_version_order_transitive, version_order,
    version_precedes_spec, VersionParts,
};

verus! {

broadcast use vstd::seq::group_seq_axioms;

// ---------------------------------------------------------------------------
// Text of the driver's `-V` output
// ---------------------------------------------------------------------------

/// Whether `c` has the Unicode `White_Space` property, as `char::is_whitespace`
/// decides it.
pub open spec fn is_whitespace_spec(c: char) -> bool {
    let u = c as u32;
    ||| u == 0x20
    ||| 0x09 <= u <= 0x0d
    ||| u == 0x85
    ||| u == 0xa0
    ||| u == 0x1680
    ||| 0x2000 <= u <= 0x200a
    ||| u == 0x2028
    ||| u == 0x2029
    ||| u == 0x202f
    ||| u == 0x205f
    ||| u == 0x3000
}

/// `s` without its trailing whitespace.
pub open spec fn trim_end_spec(s: Seq<char>) -> Seq<char>
    decreases s.len(),
{
    if s.len() > 0 && is_whitespace_spec(s.last()) {
        trim_end_spec(s.drop_last())
    } else {
        s
    }
}

/// The index of the last space in `s`, or -1 when there is none.
pub open spec fn last_space(s: Seq<char>) -> int
    decreases s.len(),
{
    if s.len() == 0 {
        -1
    } else if s.last() == ' ' {
        s.len() - 1
    } else {
        last_space(s.drop_last())
    }
}

/// The version that a driver's `-V` output reports: the text after the last
/// space once trailing whitespace is removed, or nothing when there is no space.
pub open spec fn reported_version_spec(output: Seq<char>) -> Option<Seq<char>> {
    let t = trim_end_spec(output);
    let i = last_space(t);
    if i < 0 {
        None
    } else {
        Some(t.subrange(i + 1, t.len() as int))
    }
}

/// Whether `c` is whitespace (`char::is_whitespace`).
pub fn is_whitespace(c: char) -> (r: bool)
    ensures
        r == is_whitespace_spec(c),
{
    let u = c as u32;
    u == 0x20 || (0x09 <= u && u <= 0x0d) || u == 0x85 || u == 0xa0 || u == 0x1680 || (0x2000
        <= u && u <= 0x200a) || u == 0x2028 || u == 0x2029 || u == 0x202f || u == 0x205f || u
        == 0x3000
}

proof fn lemma_trim_end_prefix(s: Seq<char>, end: int)
    requires
        0 < end <= s.len(),
        is_whitespace_spec(s[end - 1]),
    ensures
        trim_end_spec(s.subrange(0, end)) == trim_end_spec(s.subrange(0, end - 1)),
{
    assert(s.subrange(0, end).drop_last() =~= s.subrange(0, end - 1));
}

proof fn lemma_last_space_prefix(s: Seq<char>, i: int)
    requires
        0 < i <= s.len(),
        s[i - 1] != ' ',
    ensures
        last_space(s.subrange(0, i)) == last_space(s.subrange(0, i - 1)),
{
    assert(s.subrange(0, i).drop_last() =~= s.subrange(0, i - 1));
}

/// The version that a driver reports in its `-V` output (the text after the
/// last space, once trailing whitespace is removed).
pub fn reported_version(output: &str) -> (r: Option<&str>)
    ensures
        r matches Some(v) ==> reported_version_spec(output@) == Some(v@),
        r is None <==> reported_version_spec(output@) is None,
{
    let n = output.unicode_len();
    let mut end: usize = n;
    proof {
        assert(output@.subrange(0, n as int) =~= output@);
    }
    loop
        invariant
            end <= n,
            n == output@.len(),
            trim_end_spec(output@) == trim_end_spec(output@.subrange(0, end as int)),
        ensures
            end <= n,
            trim_end_spec(output@) == trim_end_spec(output@.subrange(0, end as int)),
            end == 0 || !is_whitespace_spec(output@[end - 1]),
        decreases end,
    {
        if end == 0 {
            break;
        }
        let c = output.get_char(end - 1);
        if !is_whitespace(c) {
            break;
        }
        proof {
            lemma_trim_end_prefix(output@, end as int);
        }
        end = end - 1;
    }
    let ghost t = output@.subrange(0, end as int);
    assert(trim_end_spec(output@) == t);
    let mut i: usize = end;
    proof {
        assert(t.subrange(0, end as int) =~= t);
    }
    loop
        invariant
            i <= end,
            end <= n,
            n == output@.len(),
            t == output@.subrange(0, end as int),
            trim_end_spec(output@) == t,
            last_space(t) == last_space(t.subrange(0, i as int)),
        ensures
            i <= end,
            last_space(t) == last_space(t.subrange(0, i as int)),
            i == 0 || t[i - 1] == ' ',
        decreases i,
    {
        if i == 0 {
            break;
        }
        let c = output.get_char(i - 1);
        if c == ' ' {
            break;
        }
        proof {
            lemma_last_space_prefix(t, i as int);
            assert(t.subrange(0, i as int).subrange(0, i - 1) =~= t.subrange(0, i - 1));
        }
        i = i - 1;
    }
    if i == 0 {
        assert(t.subrange(0, 0) =~= Seq::<char>::empty());
        None
    } else {
        let v = output.substring_char(i, end);
        assert(v@ =~= t.subrange(i as int, end as int));
        Some(v)
    }
}


// ---------------------------------------------------------------------------
// Semantic versions
// ---------------------------------------------------------------------------

/// `semver::Version`, carried through opaque.
#[verifier::external_type_specification]
#[verifier::external_body]
pub struct ExVersion(semver::Version);

/// `semver::Error`, the reason `semver::Version::parse` refused a text.
#[verifier::external_type_specification]
#[verifier::external_body]
pub struct ExSemverError(semver::Error);

/// `core::str::Utf8Error`, the reason `std::str::from_utf8` refused bytes.
#[verifier::external_type_specification]
#[verifier::external_body]
pub struct ExUtf8Error(core::str::Utf8Error);

/// What `semver::Version::parse` makes of `text`: `None` when it refuses the
/// text, else the parsed version's numbers and its pre-release and build
/// metadata strings.
pub uninterp spec fn semver_parse(text: Seq<char>) -> Option<VersionParts>;

/// Whether `c` may stand in a version text: an ASCII letter or digit, `.`,
/// `-` or `+`.
pub open spec fn is_version_char(c: char) -> bool {
    let u = c as u32;
    ||| 0x30 <= u <= 0x39
    ||| 0x41 <= u <= 0x5a
    ||| 0x61 <= u <= 0x7a
    ||| u == 0x2e
    ||| u == 0x2d
    ||| u == 0x2b
}

/// Whether every character of `text` may stand in a version text.
pub open spec fn all_version_chars(text: Seq<char>) -> bool {
    forall|i: int| 0 <= i < text.len() ==> is_version_char(#[trigger] text[i])
}

/// The value of a string of decimal digits.
pub open spec fn digits_value(d: Seq<char>) -> nat
    decreases d.len(),
{
    if d.len() == 0 {
        0
    } else {
        digits_value(d.drop_last()) * 10 + ((d.last() as u32 - 0x30) as nat)
    }
}

/// Whether `d` is a version number as `semver` reads it: digits, no leading
/// zero (but `0` itself), and a value that fits in a `u64`.
pub open spec fn is_version_number(d: Seq<char>) -> bool {
    &&& d.len() > 0
    &&& is_numeric_id(d)
    &&& (d.len() == 1 || d[0] != '0')
    &&& digits_value(d) <= u64::MAX
}

/// Whether `text` is a plain release: three version numbers joined by dots.
pub open spec fn is_plain_release(text: Seq<char>) -> bool {
    let parts = split_dots(text);
    &&& parts.len() == 3
    &&& is_version_number(parts[0])
    &&& is_version_number(parts[1])
    &&& is_version_number(parts[2])
}

/// What `semver::Version::parse` makes of `text`: `None` when it refuses the
/// text, else the version's numbers and its pre-release and build metadata
/// strings. As `semver`'s source shows, it refuses the empty text and every
/// text with a character other than ASCII letters, digits, `.`, `-` and `+`;
/// it reads a plain release as its three numbers with no pre-release and no
/// build metadata; what it makes of the other texts is `semver_parse`.
pub open spec fn parsed_version(text: Seq<char>) -> Option<VersionParts> {
    if text.len() == 0 || !all_version_chars(text) {
        None
    } else if is_plain_release(text) {
        let parts = split_dots(text);
        Some((
            digits_value(parts[0]) as u64,
            digits_value(parts[1]) as u64,
            digits_value(parts[2]) as u64,
            Seq::<char>::empty(),
            Seq::<char>::empty(),
        ))
    } else {
        semver_parse(text)
    }
}

/// The text that `Display` gives for the error with which
/// `semver::Version::parse` refuses `text`.
pub uninterp spec fn semver_refusal_text(text: Seq<char>) -> Seq<char>;

/// The text that `Display` gives for the error with which
/// `std::str::from_utf8` refuses `bytes`.
pub uninterp spec fn utf8_refusal_text(bytes: Seq<u8>) -> Seq<char>;

/// Why `std::str::from_utf8` refused some bytes: the bytes, with the error.
pub struct Utf8Refusal {
    bytes: Vec<u8>,
    error: core::str::Utf8Error,
}

impl View for Utf8Refusal {
    type V = Seq<u8>;

    /// The refused bytes.
    closed spec fn view(&self) -> Seq<u8> {
        self.bytes@
    }
}

/// Why `semver::Version::parse` refused a text: the text, with the error.
pub struct SemverRefusal {
    text: String,
    error: semver::Error,
}

impl View for SemverRefusal {
    type V = Seq<char>;

    /// The refused text.
    closed spec fn view(&self) -> Seq<char> {
        self.text@
    }
}

/// A parsed semantic version.
pub struct SemanticVersion {
    major: u64,
    minor: u64,
    patch: u64,
    pre: String,
    build: String,
    parsed: semver::Version,
}

impl View for SemanticVersion {
    type V = VersionParts;

    closed spec fn view(&self) -> VersionParts {
        (self.major, self.minor, self.patch, self.pre@, self.build@)
    }
}

/// Decodes `bytes` as UTF-8 with `std::str::from_utf8`: text exactly when the
/// bytes are valid UTF-8, and then the text whose encoding they are.
#[verifier::external_body]
fn utf8_text(bytes: &[u8]) -> (r: Result<&str, Utf8Refusal>)
    ensures
        r is Ok <==> valid_utf8(bytes@),
        r matches Ok(s) ==> s.spec_bytes() == bytes@,
        r matches Err(e) ==> e@ == bytes@,
{
    match std::str::from_utf8(bytes) {
        Ok(s) => Ok(s),
        Err(error) => Err(Utf8Refusal { bytes: bytes.to_vec(), error }),
    }
}

/// The text that `Display` gives for a `Utf8Error`: a function of the bytes
/// that `std::str::from_utf8` refused.
#[verifier::external_body]
fn utf8_error_text(e: &Utf8Refusal) -> (r: String)
    ensures
        r@ == utf8_refusal_text(e@),
{
    e.error.to_string()
}

/// Parses `text` with `semver::Version::parse` and keeps the parts as plain
/// values. The result is `parsed_version(text)`; the crate's source shows that
/// the empty text is refused.
#[verifier::external_body]
fn parse_semver(text: &str) -> (r: Result<SemanticVersion, SemverRefusal>)
    ensures
        r is Ok <==> parsed_version(text@) is Some,
        r matches Ok(v) ==> parsed_version(text@) == Some(v@),
        r matches Err(e) ==> e@ == text@,
        text@.len() > 0 && all_version_chars(text@) && !is_plain_release(text@) ==> (r is Ok
            <==> semver_parse(text@) is Some) && (r matches Ok(v) ==> semver_parse(text@) == Some(
            v@,
        )),
{
    match semver::Version::parse(text) {
        Ok(v) => Ok(SemanticVersion {
            major: v.major,
            minor: v.minor,
            patch: v.patch,
            pre: v.pre.as_str().to_string(),
            build: v.build.as_str().to_string(),
            parsed: v,
        }),
        Err(error) => Err(SemverRefusal { text: text.to_string(), error }),
    }
}

/// The text that `Display` gives for a `semver::Error`: a function of the text
/// that `semver::Version::parse` refused. The crate's source gives it for the
/// empty text.
#[verifier::external_body]
fn semver_error_text(e: &SemverRefusal) -> (r: String)
    ensures
        r@ == semver_refusal_text(e@),
        e@.len() == 0 ==> r@ == "empty string, expected a semver version"@,
{
    e.error.to_string()
}

/// Compares two parsed versions with `semver::Version`'s `<`: its derived
/// order (major, minor, patch, pre-release, build metadata), with the orders
/// of `Prerelease` and `BuildMetadata` that the crate documents and
/// implements, written out in `precedence`.
#[verifier::external_body]
fn semver_less(a: &SemanticVersion, b: &SemanticVersion) -> (r: bool)
    ensures
        r == version_precedes_spec(a@, b@),
{
    a.parsed < b.parsed
}

// ---------------------------------------------------------------------------
// Comparing a driver with the running tool
// ---------------------------------------------------------------------------

/// Why a driver's version could not be compared with the running tool's.
pub enum VersionCheckError {
    /// The driver's output is not UTF-8.
    InvalidUtf8 { reason: String },
    /// The output has no space, so no version can be read from it.
    MissingVersion,
    /// The text the driver reports is not a semantic version.
    UnparsableDriverVersion { reported: String },
    /// The running tool's own version is not a semantic version.
    UnparsableOwnVersion { reason: String },
}

/// The comparison of a driver that printed `output` with the tool of version
/// text `ours`: `Some(outdated)` when both versions could be read, else `None`.
pub open spec fn comparison_spec(output: Seq<u8>, ours: Seq<char>) -> Option<bool> {
    if !valid_utf8(output) {
        None
    } else {
        match reported_version_spec(decode_utf8(output)) {
            None => None,
            Some(theirs) => match (parsed_version(theirs), parsed_version(ours)) {
                (Some(t), Some(o)) => Some(version_precedes_spec(t, o)),
                _ => None,
            },
        }
    }
}

proof fn lemma_text_of_bytes(s: &str, bytes: Seq<u8>)
    requires
        s.spec_bytes() == bytes,
    ensures
        valid_utf8(bytes),
        s@ == decode_utf8(bytes),
{
    encode_utf8_valid_utf8(s@);
    encode_utf8_decode_utf8(s@);
}

/// Reads the version that a driver printed in `output` and compares it with
/// `our_version`: `Ok(true)` when the driver's version comes before ours.
pub fn check_driver_version(output: &[u8], our_version: &str) -> (r: Result<
    bool,
    VersionCheckError,
>)
    ensures
        !valid_utf8(output@) ==> (r matches Err(VersionCheckError::InvalidUtf8 { reason })
            && reason@ == utf8_refusal_text(output@)),
        valid_utf8(output@) && reported_version_spec(decode_utf8(output@)) is None ==> r matches Err(
            VersionCheckError::MissingVersion,
        ),
        valid_utf8(output@) ==> (reported_version_spec(decode_utf8(output@)) matches Some(theirs)
            ==> {
            &&& parsed_version(theirs) is None ==> (r matches Err(
                VersionCheckError::UnparsableDriverVersion { reported },
            ) && reported@ == theirs)
            &&& parsed_version(theirs) is Some && parsed_version(our_version@) is None ==> (r matches Err(
                VersionCheckError::UnparsableOwnVersion { reason },
            ) && reason@ == semver_refusal_text(our_version@))
        }),
        r is Ok <==> comparison_spec(output@, our_version@) is Some,
        r matches Ok(b) ==> comparison_spec(output@, our_version@) == Some(b),
{
    let text = match utf8_text(output) {
        Ok(text) => text,
        Err(e) => {
            return Err(VersionCheckError::InvalidUtf8 { reason: utf8_error_text(&e) });
        },
    };
    proof {
        lemma_text_of_bytes(text, output@);
    }
    let theirs = match reported_version(text) {
        Some(v) => v,
        None => {
            return Err(VersionCheckError::MissingVersion);
        },
    };
    let their_version = parse_version(theirs);
    let our_parsed = parse_version(our_version);
    compare_versions(theirs, &their_version, &our_parsed)
}

/// Parses `text` as a semantic version, as `semver::Version::parse` does.
pub fn parse_version(text: &str) -> (r: Result<SemanticVersion, SemverRefusal>)
    ensures
        r is Ok <==> parsed_version(text@) is Some,
        r matches Ok(v) ==> parsed_version(text@) == Some(v@),
        r matches Err(e) ==> e@ == text@,
{
    parse_semver(text)
}

/// Decides whether the driver is older than the running tool, from the text
/// `reported` that the driver gave as its version, and what parsing it
/// (`theirs`) and the tool's own version (`ours`) gave: the driver's refusal
/// is reported first, then the tool's own.
pub fn compare_versions(
    reported: &str,
    theirs: &Result<SemanticVersion, SemverRefusal>,
    ours: &Result<SemanticVersion, SemverRefusal>,
) -> (r: Result<bool, VersionCheckError>)
    ensures
        theirs is Err ==> (r matches Err(VersionCheckError::UnparsableDriverVersion { reported: rep })
            && rep@ == reported@),
        theirs is Ok ==> (ours matches Err(e) ==> (r matches Err(
            VersionCheckError::UnparsableOwnVersion { reason },
        ) && reason@ == semver_refusal_text(e@))),
        theirs matches Ok(t) ==> (ours matches Ok(o) ==> (r matches Ok(b) && b
            == version_precedes_spec(t@, o@))),
{
    match theirs {
        Err(_) => Err(VersionCheckError::UnparsableDriverVersion { reported: String::from_str(reported) }),
        Ok(t) => match ours {
            Err(e) => Err(VersionCheckError::UnparsableOwnVersion { reason: semver_error_text(e) }),
            Ok(o) => Ok(semver_less(t, o)),
        },
    }
}


/// The warning given for a driver that printed `output` when its version
/// cannot be compared with the version of text `ours`; `None` when it can.
pub open spec fn warning_spec(output: Seq<u8>, ours: Seq<char>) -> Option<Seq<char>> {
    if !valid_utf8(output) {
        Some(utf8_refusal_text(output))
    } else {
        match reported_version_spec(decode_utf8(output)) {
            None => Some("Could not determine driver version"@),
            Some(theirs) => if parsed_version(theirs) is None {
                Some("Could not parse driver version `"@ + theirs + "`"@)
            } else if parsed_version(ours) is None {
                Some(semver_refusal_text(ours))
            } else {
                None
            },
        }
    }
}

impl VersionCheckError {
    /// The text of the warning that reports this error.
    pub fn message(&self) -> (m: String)
        ensures
            self matches VersionCheckError::InvalidUtf8 { reason } ==> m@ == reason@,
            self is MissingVersion ==> m@ == "Could not determine driver version"@,
            self matches VersionCheckError::UnparsableDriverVersion { reported } ==> m@
                == "Could not parse driver version `"@ + reported@ + "`"@,
            self matches VersionCheckError::UnparsableOwnVersion { reason } ==> m@ == reason@,
    {
        match self {
            VersionCheckError::InvalidUtf8 { reason } => reason.clone(),
            VersionCheckError::MissingVersion => String::from_str(
                "Could not determine driver version",
            ),
            VersionCheckError::UnparsableDriverVersion { reported } => {
                let mut m = String::from_str("Could not parse driver version `");
                m.append(reported.as_str());
                m.append("`");
                m
            },
            VersionCheckError::UnparsableOwnVersion { reason } => reason.clone(),
        }
    }
}

/// Whether the driver must be rebuilt, given what running it with `-V` gave
/// (`Err` with the failure's text when it could not be run), and the warning
/// to show. A driver whose version cannot be compared with `our_version`
/// counts as outdated, and the reason becomes the warning.
pub fn is_outdated(version_output: Result<&[u8], String>, our_version: &str) -> (r: (
    bool,
    Option<String>,
))
    ensures
        version_output matches Err(m) ==> r.0 && (r.1 matches Some(w) && w@ == m@),
        version_output matches Ok(out) ==> {
            &&& r.0 == (comparison_spec(out@, our_version@) != Some(false))
            &&& r.1 is None <==> warning_spec(out@, our_version@) is None
            &&& r.1 matches Some(w) ==> warning_spec(out@, our_version@) == Some(w@)
        },
{
    match version_output {
        Err(m) => (true, Some(m)),
        Ok(out) => match check_driver_version(out, our_version) {
            Ok(older) => (older, None),
            Err(e) => (true, Some(e.message())),
        },
    }
}


proof fn lemma_trim_end_whitespace_suffix(p: Seq<char>, w: Seq<char>)
    requires
        forall|i: int| 0 <= i < w.len() ==> is_whitespace_spec(#[trigger] w[i]),
    ensures
        trim_end_spec(p + w) == trim_end_spec(p),
    decreases w.len(),
{
    if w.len() > 0 {
        assert((p + w).drop_last() =~= p + w.drop_last());
        assert((p + w).last() == w[w.len() - 1]);
        lemma_trim_end_whitespace_suffix(p, w.drop_last());
    } else {
        assert(p + w =~= p);
    }
}

proof fn lemma_last_space_spaceless_suffix(p: Seq<char>, q: Seq<char>)
    requires
        p.len() > 0,
        p.last() == ' ',
        forall|i: int| 0 <= i < q.len() ==> #[trigger] q[i] != ' ',
    ensures
        last_space(p + q) == p.len() - 1,
    decreases q.len(),
{
    if q.len() > 0 {
        assert((p + q).drop_last() =~= p + q.drop_last());
        assert((p + q).last() == q[q.len() - 1]);
        lemma_last_space_spaceless_suffix(p, q.drop_last());
    } else {
        assert(p + q =~= p);
    }
}

/// The bytes of a `-V` output line: a name, a space, a version text, and a
/// trailer (such as the line break).
pub open spec fn version_line(name: Seq<char>, word: Seq<char>, trailer: Seq<char>) -> Seq<u8> {
    encode_utf8(name + seq![' '] + word + trailer)
}

/// Whether `trailer` is nothing but whitespace.
pub open spec fn all_whitespace(trailer: Seq<char>) -> bool {
    forall|i: int| 0 <= i < trailer.len() ==> is_whitespace_spec(#[trigger] trailer[i])
}

/// A text that `semver` accepts is one word: not empty, and without
/// whitespace.
pub proof fn lemma_version_text_is_one_word(text: Seq<char>)
    requires
        parsed_version(text) is Some,
    ensures
        text.len() > 0,
        forall|i: int| 0 <= i < text.len() ==> !is_whitespace_spec(#[trigger] text[i]),
{
    assert forall|i: int| 0 <= i < text.len() implies !is_whitespace_spec(#[trigger] text[i]) by {
        assert(is_version_char(text[i]));
    }
}

/// A `-V` output line whose last word is a version text `word`, followed by
/// nothing but whitespace, is valid UTF-8 and reports `word` as the driver's
/// version.
pub proof fn lemma_last_word_is_reported(name: Seq<char>, word: Seq<char>, trailer: Seq<char>)
    requires
        parsed_version(word) is Some,
        all_whitespace(trailer),
    ensures
        valid_utf8(version_line(name, word, trailer)),
        reported_version_spec(decode_utf8(version_line(name, word, trailer))) == Some(word),
{
    lemma_version_text_is_one_word(word);
    let head = name + seq![' '];
    let line = head + word;
    let text = line + trailer;
    encode_utf8_valid_utf8(text);
    encode_utf8_decode_utf8(text);
    lemma_trim_end_whitespace_suffix(line, trailer);
    assert(line.last() == word.last());
    assert(!is_whitespace_spec(word[word.len() - 1]));
    assert(trim_end_spec(line) == line);
    assert forall|i: int| 0 <= i < word.len() implies #[trigger] word[i] != ' ' by {
        assert(!is_whitespace_spec(word[i]));
    }
    assert(head.last() == ' ');
    lemma_last_space_spaceless_suffix(head, word);
    assert(line.subrange(head.len() as int, line.len() as int) =~= word);
}

/// A driver whose `-V` output ends with the running tool's own version, as
/// its last space-separated word (followed by nothing but whitespace), is not
/// outdated, and no warning is given.
pub proof fn lemma_same_version_is_current(name: Seq<char>, ours: Seq<char>, trailer: Seq<char>)
    requires
        parsed_version(ours) is Some,
        all_whitespace(trailer),
    ensures
        comparison_spec(version_line(name, ours, trailer), ours) == Some(false),
        warning_spec(version_line(name, ours, trailer), ours) is None,
{
    lemma_last_word_is_reported(name, ours, trailer);
    lemma_version_order_reflexive(parsed_version(ours)->0);
}

/// The older a driver, the more outdated: a driver that reports a version at
/// or before (in `semver`'s order) that of a driver found outdated is outdated
/// too.
pub proof fn lemma_outdated_is_monotonic(
    name1: Seq<char>,
    v1: Seq<char>,
    trailer1: Seq<char>,
    name2: Seq<char>,
    v2: Seq<char>,
    trailer2: Seq<char>,
    ours: Seq<char>,
)
    requires
        parsed_version(v1) is Some,
        parsed_version(v2) is Some,
        all_whitespace(trailer1),
        all_whitespace(trailer2),
        version_order(parsed_version(v1)->0, parsed_version(v2)->0) <= 0,
        comparison_spec(version_line(name2, v2, trailer2), ours) == Some(true),
    ensures
        comparison_spec(version_line(name1, v1, trailer1), ours) == Some(true),
{
    lemma_last_word_is_reported(name1, v1, trailer1);
    lemma_last_word_is_reported(name2, v2, trailer2);
    lemma_version_order_transitive(
        parsed_version(v1)->0,
        parsed_version(v2)->0,
        parsed_version(ours)->0,
    );
}

/// Plain releases are ordered by their numbers, compared as numbers, not as
/// text: major first, then minor, then patch.
pub proof fn lemma_releases_compare_numerically(a: Seq<char>, b: Seq<char>)
    requires
        is_plain_release(a),
        is_plain_release(b),
        all_version_chars(a),
        all_version_chars(b),
    ensures
        parsed_version(a) is Some,
        parsed_version(b) is Some,
        version_precedes_spec(parsed_version(a)->0, parsed_version(b)->0) == {
            let (pa, pb) = (split_dots(a), split_dots(b));
            let (a0, a1, a2) = (digits_value(pa[0]), digits_value(pa[1]), digits_value(pa[2]));
            let (b0, b1, b2) = (digits_value(pb[0]), digits_value(pb[1]), digits_value(pb[2]));
            a0 < b0 || (a0 == b0 && (a1 < b1 || (a1 == b1 && a2 < b2)))
        },
{
    assert(a.len() > 0) by {
        if a.len() == 0 {
            assert(split_dots(a).len() == 1);
        }
    }
    assert(b.len() > 0) by {
        if b.len() == 0 {
            assert(split_dots(b).len() == 1);
        }
    }
    let va = parsed_version(a)->0;
    let vb = parsed_version(b)->0;
    lemma_version_order_reflexive(va);
    if va.0 == vb.0 && va.1 == vb.1 && va.2 == vb.2 {
        assert(va == vb);
    }
}


/// When the driver reports a version text and both it and the tool's own
/// version parse, the driver is outdated exactly when its version precedes
/// the tool's in `semver`'s order, and no warning is given.
pub proof fn lemma_comparison_is_precedence(
    name: Seq<char>,
    theirs: Seq<char>,
    trailer: Seq<char>,
    ours: Seq<char>,
)
    requires
        parsed_version(theirs) is Some,
        parsed_version(ours) is Some,
        all_whitespace(trailer),
    ensures
        comparison_spec(version_line(name, theirs, trailer), ours) == Some(
            version_precedes_spec(parsed_version(theirs)->0, parsed_version(ours)->0),
        ),
        warning_spec(version_line(name, theirs, trailer), ours) is None,
{
    lemma_last_word_is_reported(name, theirs, trailer);
}

/// Between plain releases, a driver is outdated exactly when its numbers come
/// before the tool's: major first, then minor, then patch, compared as
/// numbers. So a driver that differs from the tool only in a lower patch (or
/// minor, or major) number is outdated, and one that is equal or newer is not.
pub proof fn lemma_older_release_is_outdated(
    name: Seq<char>,
    theirs: Seq<char>,
    trailer: Seq<char>,
    ours: Seq<char>,
)
    requires
        is_plain_release(theirs),
        is_plain_release(ours),
        all_version_chars(theirs),
        all_version_chars(ours),
        all_whitespace(trailer),
    ensures
        comparison_spec(version_line(name, theirs, trailer), ours) == Some({
            let (pt, po) = (split_dots(theirs), split_dots(ours));
            let (t0, t1, t2) = (digits_value(pt[0]), digits_value(pt[1]), digits_value(pt[2]));
            let (o0, o1, o2) = (digits_value(po[0]), digits_value(po[1]), digits_value(po[2]));
            t0 < o0 || (t0 == o0 && (t1 < o1 || (t1 == o1 && t2 < o2)))
        }),
{
    lemma_releases_compare_numerically(theirs, ours);
    lemma_comparison_is_precedence(name, theirs, trailer, ours);
}

} // verus!
