//! The advisory that a conversion starts from, and what RustSec says of its
//! identifier and of the versions it bears on.

use rustsec::advisory::Versions;
use std::str::FromStr;
use vstd::prelude::*;

verus! {

#[verifier::external_type_specification]
#[verifier::external_body]
pub struct ExVersions(Versions);

/// The version requirements that an advisory lists as never affected, each in
/// the text form that `semver` prints, in the advisory's order.
pub uninterp spec fn unaffected_requirements(versions: Versions) -> Seq<Seq<char>>;

/// The version requirements that an advisory lists as patched, each in the
/// text form that `semver` prints, in the advisory's order.
pub uninterp spec fn patched_requirements(versions: Versions) -> Seq<Seq<char>>;

/// The version texts that parse to a version which the advisory's own
/// oracle, `Versions::is_vulnerable`, reports as vulnerable.
pub uninterp spec fn vulnerable_versions(versions: Versions) -> Set<Seq<char>>;

/// Whether both texts parse and the version meets the requirement, as
/// `semver::VersionReq::matches` decides it.
pub uninterp spec fn requirement_matches(requirement: Seq<char>, version: Seq<char>) -> bool;

/// The text that `semver` prints for the version that a text parses to;
/// `None` for a text that is no version.
pub uninterp spec fn canonical_version(text: Seq<char>) -> Option<Seq<char>>;

/// The naming authority that `rustsec` detects in an advisory identifier;
/// `None` for a text that it does not take as an identifier.
pub uninterp spec fn identifier_kind(id: Seq<char>) -> Option<IdKind>;

/// The naming authorities that an advisory identifier can come from.
#[derive(Clone, Copy, Debug, PartialEq, Eq)]
pub enum IdKind {
    RustSec,
    Cve,
    Ghsa,
    Talos,
    Other,
}

/// The naming authority that the start of an identifier points to.
pub open spec fn kind_by_prefix(id: Seq<char>) -> IdKind {
    if "RUSTSEC-"@.is_prefix_of(id) {
        IdKind::RustSec
    } else if "CVE-"@.is_prefix_of(id) {
        IdKind::Cve
    } else if "TALOS-"@.is_prefix_of(id) {
        IdKind::Talos
    } else if "GHSA-"@.is_prefix_of(id) {
        IdKind::Ghsa
    } else {
        IdKind::Other
    }
}

/// The day on which an advisory was published.
#[derive(Clone, Copy, Debug, PartialEq, Eq)]
pub struct Date {
    pub year: u32,
    pub month: u32,
    pub day: u32,
}

/// A security advisory for one package.
#[derive(Debug, PartialEq, Eq)]
pub struct Advisory {
    /// The primary identifier, such as `RUSTSEC-2021-0093`.
    pub id: String,
    /// The name of the package.
    pub package: String,
    pub title: String,
    pub description: String,
    pub date: Date,
    /// Identifiers of the same advisory in other databases.
    pub aliases: Vec<String>,
    /// The CVSS v3 vector string, where the advisory carries a severity.
    pub cvss: Option<String>,
    /// Addresses of further reading.
    pub references: Vec<String>,
    /// Which versions are patched, which were never affected, and the oracle
    /// that tells whether a version is vulnerable.
    pub versions: Versions,
}

/// `Versions::unaffected` of `rustsec`, each requirement handed out in the
/// text form that `semver` prints: the texts are known only by name.
#[verifier::external_body]
pub(crate) fn unaffected(versions: &Versions) -> (texts: Vec<String>)
    ensures
        texts.deep_view() == unaffected_requirements(*versions),
{
    versions.unaffected().iter().map(|requirement| requirement.to_string()).collect()
}

/// `Versions::patched` of `rustsec`, each requirement handed out in the text
/// form that `semver` prints: the texts are known only by name.
#[verifier::external_body]
pub(crate) fn patched(versions: &Versions) -> (texts: Vec<String>)
    ensures
        texts.deep_view() == patched_requirements(*versions),
{
    versions.patched().iter().map(|requirement| requirement.to_string()).collect()
}

/// `semver::VersionReq::matches`, on a requirement and a version given as
/// texts. Where either text does not parse the answer is `false`. The answer
/// is a function of the two texts and is known only by name.
#[verifier::external_body]
pub(crate) fn meets(requirement: &str, version: &str) -> (verdict: bool)
    ensures
        verdict == requirement_matches(requirement@, version@),
{
    match (rustsec::VersionReq::parse(requirement), rustsec::Version::parse(version)) {
        (Ok(requirement), Ok(version)) => requirement.matches(&version),
        _ => false,
    }
}

/// `Versions::is_vulnerable` of `rustsec`, on a version given as a text.
/// Where the text does not parse the answer is `false`. The answer is a
/// function of the advisory's versions and the text, known only by name.
/// The call works the ranges out as the making of the `Versions` value did,
/// so it does not fail on a value that exists.
#[verifier::external_body]
pub(crate) fn is_vulnerable(versions: &Versions, version: &str) -> (verdict: bool)
    ensures
        verdict == vulnerable_versions(*versions).contains(version@),
{
    match rustsec::Version::parse(version) {
        Ok(version) => versions.is_vulnerable(&version),
        Err(_) => false,
    }
}

/// `semver::Version::parse`, followed by printing what was parsed. The
/// result is a function of the text and is known only by name.
#[verifier::external_body]
pub(crate) fn canonical(text: &str) -> (name: Option<String>)
    ensures
        name.deep_view() == canonical_version(text@),
{
    match rustsec::Version::parse(text) {
        Ok(version) => Some(version.to_string()),
        Err(_) => None,
    }
}

/// `Id::from_str` of `rustsec`, followed by `Id::kind`. The result is a
/// function of the text and has a name. Which texts are taken as
/// identifiers is known only by that name; the kind of one that is taken
/// goes by how the text starts.
#[verifier::external_body]
pub(crate) fn detect_kind(id: &str) -> (kind: Option<IdKind>)
    ensures
        kind == identifier_kind(id@),
        kind matches Some(found) ==> found == kind_by_prefix(id@),
{
    match rustsec::advisory::Id::from_str(id) {
        Ok(id) => Some(
            match id.kind() {
                rustsec::advisory::IdKind::RustSec => IdKind::RustSec,
                rustsec::advisory::IdKind::Cve => IdKind::Cve,
                rustsec::advisory::IdKind::Ghsa => IdKind::Ghsa,
                rustsec::advisory::IdKind::Talos => IdKind::Talos,
                _ => IdKind::Other,
            },
        ),
        Err(_) => None,
    }
}

} // verus!
