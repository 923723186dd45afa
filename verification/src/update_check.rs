//! The decision whether a published release is newer than the running
//! version. Fetching the latest release from the hosting service is done
//! by the application, which hands the decoded release to this module.
//!
//! Versions are parsed and compared by the `semver` crate.

use vstd::prelude::*;
use crate::text::{chars_of, concat, push_char};

verus! {

broadcast use vstd::string::group_string_axioms;

#[verifier::external_type_specification]
#[verifier::external_body]
pub struct ExVersion(semver::Version);

#[verifier::external_type_specification]
#[verifier::external_body]
pub struct ExSemverError(semver::Error);

/// Whether `semver::Version::parse` accepts the text.
pub uninterp spec fn semver_accepts(text: Seq<char>) -> bool;

/// Whether the version parsed from `a` is greater than the one parsed from
/// `b` in the order of `semver::Version`.
pub uninterp spec fn semver_later(a: Seq<char>, b: Seq<char>) -> bool;

/// A version text that `semver` accepted, with its parsed value.
pub struct SemVersion {
    text: String,
    parsed: semver::Version,
}

impl View for SemVersion {
    type V = Seq<char>;

    /// The text the version was parsed from.
    closed spec fn view(&self) -> Seq<char> {
        self.text@
    }
}

/// Parses a version with `semver::Version::parse`. The call succeeds
/// exactly on the texts that `semver` accepts; the parsed value is kept
/// beside its text.
#[verifier::external_body]
fn parse_version(text: &str) -> (r: Result<SemVersion, semver::Error>)
    ensures
        r is Ok <==> semver_accepts(text@),
        r matches Ok(v) ==> v@ == text@,
{
    match semver::Version::parse(text) {
        Ok(parsed) => Ok(SemVersion { text: text.to_string(), parsed }),
        Err(e) => Err(e),
    }
}

/// Compares two parsed versions with `>` of `semver::Version` (whose `Ord`
/// is derived, a total order): the result is the named comparison of the
/// texts they were parsed from, and no version is later than one parsed
/// from the same text.
#[verifier::external_body]
fn version_later(a: &SemVersion, b: &SemVersion) -> (r: bool)
    ensures
        r == semver_later(a@, b@),
        a@ == b@ ==> !r,
{
    a.parsed > b.parsed
}

/// The message of a `semver` parse error, as its `Display` impl writes
/// it. Nothing is stated of the text.
#[verifier::external_body]
fn semver_error_text(e: &semver::Error) -> String {
    e.to_string()
}

/// A release as the hosting service describes it.
#[derive(Debug)]
pub struct GitHubRelease {
    /// The release's tag, such as "v1.5.1".
    pub tag_name: String,
    /// Link to the release page.
    pub html_url: String,
}

/// Why no update check could be made.
#[derive(Debug)]
pub enum UpdateError {
    /// The running version is no semantic version.
    InvalidLocalVersion { version: String, reason: String },
}

impl UpdateError {
    /// The message shown for the error.
    pub fn message(&self) -> (m: String)
        ensures
            match self {
                UpdateError::InvalidLocalVersion { version, reason } => m@ == "Critical: Local version '"@
                    + version@ + "' is not SemVer compliant: "@ + reason@,
            },
    {
        match self {
            UpdateError::InvalidLocalVersion { version, reason } => {
                let s = concat("Critical: Local version '", version.as_str());
                let s = concat(s.as_str(), "' is not SemVer compliant: ");
                concat(s.as_str(), reason.as_str())
            },
        }
    }
}

/// A tag without its leading 'v' characters ("v1.5.1" and "1.5.1" name the
/// same version).
pub open spec fn strip_leading_v(s: Seq<char>) -> Seq<char>
    decreases s.len(),
{
    if s.len() > 0 && s[0] == 'v' {
        strip_leading_v(s.drop_first())
    } else {
        s
    }
}

/// Position of the first character of `s` that is not a 'v', or its
/// length.
spec fn leading_v_count(s: Seq<char>) -> int
    decreases s.len(),
{
    if s.len() > 0 && s[0] == 'v' {
        1 + leading_v_count(s.drop_first())
    } else {
        0
    }
}

proof fn lemma_leading_v(s: Seq<char>, k: int)
    requires
        0 <= k <= s.len(),
        forall|j: int| 0 <= j < k ==> s[j] == 'v',
        k < s.len() ==> s[k] != 'v',
    ensures
        strip_leading_v(s) == s.subrange(k, s.len() as int),
    decreases s.len(),
{
    if k == 0 {
        assert(s.subrange(0, s.len() as int) =~= s);
    } else {
        assert forall|j: int| 0 <= j < k - 1 implies s.drop_first()[j] == 'v' by {
            assert(s.drop_first()[j] == s[j + 1]);
        }
        if k < s.len() {
            assert(s.drop_first()[k - 1] == s[k]);
        }
        lemma_leading_v(s.drop_first(), k - 1);
        assert(s.drop_first().subrange(k - 1, s.len() - 1) =~= s.subrange(k, s.len() as int));
    }
}

/// A release tag with its leading 'v' characters removed.
pub fn trim_version_prefix(tag: &str) -> (r: String)
    ensures
        r@ == strip_leading_v(tag@),
{
    let chars = chars_of(tag);
    let mut k: usize = 0;
    while k < chars.len() && chars[k] == 'v'
        invariant
            k <= chars@.len(),
            forall|j: int| 0 <= j < k ==> chars@[j] == 'v',
        decreases chars.len() - k,
    {
        k = k + 1;
    }
    proof {
        lemma_leading_v(chars@, k as int);
    }
    let mut r = String::new();
    let mut i: usize = k;
    while i < chars.len()
        invariant
            k <= i <= chars@.len(),
            r@ == chars@.subrange(k as int, i as int),
        decreases chars.len() - i,
    {
        push_char(&mut r, chars[i]);
        proof {
            assert(chars@.subrange(k as int, i + 1) =~= chars@.subrange(k as int, i as int).push(
                chars@[i as int],
            ));
        }
        i = i + 1;
    }
    r
}

/// The running version, parsed; an error naming it when `semver` does
/// not accept it.
pub fn local_version(text: &str) -> (r: Result<SemVersion, UpdateError>)
    ensures
        r is Ok <==> semver_accepts(text@),
        r matches Ok(v) ==> v@ == text@,
        r matches Err(UpdateError::InvalidLocalVersion { version, .. }) ==> version@ == text@,
{
    match parse_version(text) {
        Ok(v) => Ok(v),
        Err(e) => Err(
            UpdateError::InvalidLocalVersion {
                version: text.to_owned(),
                reason: semver_error_text(&e),
            },
        ),
    }
}

/// The link to offer for a release, given how its version compares with
/// the running one: `Some(true)` when it is newer, `Some(false)` when it
/// is not, `None` when its tag is no semantic version. Only a newer
/// release is offered.
pub fn release_link(remote_is_newer: Option<bool>, release: &GitHubRelease) -> (r: Option<String>)
    ensures
        r is Some <==> remote_is_newer == Some(true),
        r matches Some(u) ==> u@ == release.html_url@,
{
    match remote_is_newer {
        Some(true) => Some(release.html_url.clone()),
        _ => None,
    }
}

/// The link to a release that is strictly newer than the running version,
/// if the latest release is one. A tag that is no semantic version (after
/// its leading 'v's are removed) is ignored.
pub fn newer_release_url(local: &SemVersion, release: &GitHubRelease) -> (r: Option<String>)
    ensures
        ({
            let tag = strip_leading_v(release.tag_name@);
            r is Some <==> (semver_accepts(tag) && semver_later(tag, local@))
        }),
        r matches Some(u) ==> u@ == release.html_url@,
        strip_leading_v(release.tag_name@) == local@ ==> r is None,
{
    let clean = trim_version_prefix(release.tag_name.as_str());
    let newer = match parse_version(clean.as_str()) {
        Ok(remote) => Some(version_later(&remote, local)),
        Err(_) => None,
    };
    release_link(newer, release)
}

} // verus!
