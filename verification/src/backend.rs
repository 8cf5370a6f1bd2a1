//! Which audio server answers, and in which version: read from the name the
//! server reports of itself. Finding the version in the name and reading it
//! are left to the `regex` and `lenient_semver` crates; what is decided on
//! the version is decided here.

use vstd::prelude::*;

verus! {

#[verifier::external_type_specification]
#[verifier::external_body]
pub struct ExRegexError(regex::Error);

/// The version of an audio server.
#[derive(Debug, PartialEq, Eq)]
pub struct BackendVersion {
    pub major: u64,
    pub minor: u64,
    pub patch: u64,
    /// The pre-release tag; empty for a release.
    pub pre: String,
}

/// A version as plain values.
pub struct BackendVersionView {
    pub major: u64,
    pub minor: u64,
    pub patch: u64,
    pub pre: Seq<char>,
}

impl View for BackendVersion {
    type V = BackendVersionView;

    open spec fn view(&self) -> BackendVersionView {
        BackendVersionView {
            major: self.major,
            minor: self.minor,
            patch: self.patch,
            pre: self.pre@,
        }
    }
}

/// Whether `regex` accepts `pattern` as a regular expression.
pub uninterp spec fn regex_compiles(pattern: Seq<char>) -> bool;

/// The text that group `group` of the regular expression `pattern` holds in
/// the leftmost match of the pattern in `haystack`, as `regex` finds it;
/// `None` where the pattern does not match or the group took no part.
pub uninterp spec fn regex_capture(pattern: Seq<char>, haystack: Seq<char>, group: int) -> Option<
    Seq<char>,
>;

/// The version that `lenient_semver` reads from `text`; `None` where it
/// reads none.
pub uninterp spec fn lenient_version(text: Seq<char>) -> Option<BackendVersionView>;

/// Compiles `pattern` with `regex::Regex::new`, searches `haystack` with
/// `Regex::captures` and takes the text of group `group` with
/// `Captures::get`. Nothing is proved of this: the error is what
/// `Regex::new` gave for the pattern, and the text is by definition what
/// `regex` found.
#[verifier::external_body]
fn capture_group(pattern: &str, haystack: &str, group: usize) -> (found: Result<
    Option<String>,
    regex::Error,
>)
    ensures
        found is Ok == regex_compiles(pattern@),
        found matches Ok(text) ==> match text {
            Some(t) => regex_capture(pattern@, haystack@, group as int) == Some(t@),
            None => regex_capture(pattern@, haystack@, group as int) is None,
        },
{
    let expression = regex::Regex::new(pattern)?;
    Ok(
        match expression.captures(haystack) {
            Some(groups) => match groups.get(group) {
                Some(part) => Some(part.as_str().to_string()),
                None => None,
            },
            None => None,
        },
    )
}

/// Reads `text` with `lenient_semver::parse` and hands out the numbers and
/// the pre-release tag of the version it gave. Nothing is proved of this:
/// the version is by definition what `lenient_semver` read.
#[verifier::external_body]
fn parse_version(text: &str) -> (version: Option<BackendVersion>)
    ensures
        match version {
            Some(v) => lenient_version(text@) == Some(v@),
            None => lenient_version(text@) is None,
        },
{
    match lenient_semver::parse(text) {
        Ok(v) => Some(
            BackendVersion {
                major: v.major,
                minor: v.minor,
                patch: v.patch,
                pre: v.pre.as_str().to_string(),
            },
        ),
        Err(_) => None,
    }
}

/// Why no version could be looked for.
#[derive(Clone, Copy, Debug, PartialEq, Eq, Structural)]
pub enum PatternError {
    /// The pattern is no regular expression.
    Invalid,
}

/// The version that the first group of `pattern` finds in `name`, as
/// `regex` finds the text and `lenient_semver` reads it; `None` where the
/// pattern finds no text or the text is no version.
pub open spec fn version_in(pattern: Seq<char>, name: Seq<char>) -> Option<BackendVersionView> {
    match regex_capture(pattern, name, 1) {
        Some(text) => lenient_version(text),
        None => None,
    }
}

/// Looks in `name` for the text that the first group of `pattern` matches
/// and reads it as a version. Fails exactly where the pattern is no regular
/// expression.
pub fn detect_version(pattern: &str, name: &str) -> (version: Result<
    Option<BackendVersion>,
    PatternError,
>)
    ensures
        regex_compiles(pattern@) ==> (version matches Ok(found) && match found {
            Some(v) => version_in(pattern@, name@) == Some(v@),
            None => version_in(pattern@, name@) is None,
        }),
        !regex_compiles(pattern@) ==> version == Err::<Option<BackendVersion>, PatternError>(
            PatternError::Invalid,
        ),
{
    match capture_group(pattern, name, 1) {
        Err(_) => Err(PatternError::Invalid),
        Ok(None) => Ok(None),
        Ok(Some(text)) => Ok(parse_version(text.as_str())),
    }
}

/// `version` comes before the release `major.minor.patch`: its numbers are
/// smaller, or they are the same and it is a pre-release.
pub open spec fn precedes_release(
    version: BackendVersionView,
    major: u64,
    minor: u64,
    patch: u64,
) -> bool {
    version.major < major || (version.major == major && (version.minor < minor || (version.minor
        == minor && (version.patch < patch || (version.patch == patch && version.pre.len()
        > 0)))))
}

/// Whether a server can cancel echo. A server that names no PipeWire
/// version is taken to be one that can; PipeWire can from 0.3.30 on.
pub open spec fn echo_cancel_supported(version: Option<BackendVersionView>) -> bool {
    match version {
        Some(v) => !precedes_release(v, 0, 3, 30),
        None => true,
    }
}

impl BackendVersion {
    /// Whether this version comes before the release `major.minor.patch`.
    pub fn precedes(&self, major: u64, minor: u64, patch: u64) -> (before: bool)
        ensures
            before == precedes_release(self@, major, minor, patch),
    {
        if self.major != major {
            self.major < major
        } else if self.minor != minor {
            self.minor < minor
        } else if self.patch != patch {
            self.patch < patch
        } else {
            !self.pre.as_str().is_empty()
        }
    }
}

/// Whether a server of this version can cancel echo; `None` stands for a
/// server that names no PipeWire version.
pub fn supports_echo_cancel(version: &Option<BackendVersion>) -> (supported: bool)
    ensures
        supported == echo_cancel_supported(
            match version {
                Some(v) => Some(v@),
                None => None,
            },
        ),
{
    match version {
        Some(v) => !v.precedes(0, 3, 30),
        None => true,
    }
}

} // verus!
