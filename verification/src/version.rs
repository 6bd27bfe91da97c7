//! The version oracle: reads a manifest that describes the latest available
//! build and decides whether an update is available.
//!
//! An absent manifest means "no update", not a fault; a malformed manifest is
//! a non-transient check failure. Availability is decided by strict
//! inequality of the two version identifiers: a manifest that differs in
//! either direction counts as an update, so a downgrade manifest is applied
//! like an upgrade.

use vstd::prelude::*;

use crate::errors::UpdateError;
use crate::errors::UpdateErrorKind;

verus! {

/// The manifest record: the latest version and where its payload lives.
#[derive(Debug, Clone)]
pub struct Manifest {
    /// Version identifier of the latest available build.
    pub version: String,
    /// URI or filesystem path of the update payload.
    pub artifact_locator: String,
    /// Optional integrity digest of the payload.
    pub digest: Option<String>,
}

/// The mathematical value of a [`Manifest`].
pub struct ManifestView {
    pub version: Seq<char>,
    pub artifact_locator: Seq<char>,
    pub digest: Option<Seq<char>>,
}

impl View for Manifest {
    type V = ManifestView;

    open spec fn view(&self) -> ManifestView {
        ManifestView {
            version: self.version@,
            artifact_locator: self.artifact_locator@,
            digest: match self.digest {
                Some(d) => Some(d@),
                None => None,
            },
        }
    }
}

/// The availability verdict produced by a check; immutable once returned.
#[derive(Debug, Clone)]
pub struct UpdateVerdict {
    pub available: bool,
    pub current_version: String,
    pub latest_version: String,
    /// Where to retrieve the payload; present exactly when an update is
    /// available.
    pub artifact_locator: Option<String>,
}

/// What the manifest text parses to, if it parses at all: a record with a
/// version field and an artifact locator field, unknown fields ignored.
pub uninterp spec fn parsed_manifest(s: Seq<char>) -> Option<ManifestView>;

/// Relies on serde_json::from_str to parse the manifest document into a JSON
/// value, and on Value::get / Value::as_str to read the version, locator and
/// digest fields out of it; the result is a function of the text alone.
#[verifier::external_body]
pub(crate) fn parse_manifest_text(s: &str) -> (r: Option<Manifest>)
    ensures
        r matches Some(m) ==> parsed_manifest(s@) == Some(m@),
        r is None ==> parsed_manifest(s@) is None,
{
    let v: serde_json::Value = match serde_json::from_str(s) {
        Ok(v) => v,
        Err(_) => return None,
    };
    let version = match v.get("version").and_then(|f| f.as_str()) {
        Some(t) => t.to_string(),
        None => return None,
    };
    let artifact_locator = match v.get("artifact_locator").and_then(|f| f.as_str()) {
        Some(t) => t.to_string(),
        None => return None,
    };
    let digest = v.get("digest").and_then(|f| f.as_str()).map(|t| t.to_string());
    Some(Manifest { version, artifact_locator, digest })
}

/// What a correct verdict says, given the running version and the manifest
/// that the source yielded (or `None` when the source had none).
pub open spec fn verdict_ok(v: UpdateVerdict, current: Seq<char>, m: Option<ManifestView>) -> bool {
    &&& v.current_version@ == current
    &&& match m {
        Some(mv) => {
            &&& v.available == (mv.version != current)
            &&& v.latest_version@ == mv.version
            &&& if mv.version != current {
                v.artifact_locator matches Some(l) && l@ == mv.artifact_locator
            } else {
                v.artifact_locator is None
            }
        },
        None => {
            &&& !v.available
            &&& v.latest_version@ == current
            &&& v.artifact_locator is None
        },
    }
}

/// Decides availability from an already-parsed manifest. Free of side
/// effects and safely retryable.
pub fn check_manifest(current: &String, manifest: &Option<Manifest>) -> (v: UpdateVerdict)
    ensures
        verdict_ok(
            v,
            current@,
            match manifest {
                Some(m) => Some(m@),
                None => None,
            },
        ),
{
    match manifest {
        Some(m) => {
            let differs = !(m.version == *current);
            UpdateVerdict {
                available: differs,
                current_version: current.clone(),
                latest_version: m.version.clone(),
                artifact_locator: if differs {
                    Some(m.artifact_locator.clone())
                } else {
                    None
                },
            }
        },
        None => UpdateVerdict {
            available: false,
            current_version: current.clone(),
            latest_version: current.clone(),
            artifact_locator: None,
        },
    }
}

/// Decides availability from the raw text of the manifest source, or from its
/// absence. Absence is "no update"; text that does not parse as a manifest is
/// a non-transient [`UpdateErrorKind::CheckFailed`].
pub fn check_source(current: &String, source: &Option<String>) -> (r: Result<
    UpdateVerdict,
    UpdateError,
>)
    ensures
        match source {
            None => r matches Ok(v) && verdict_ok(v, current@, None),
            Some(text) => match parsed_manifest(text@) {
                Some(mv) => r matches Ok(v) && verdict_ok(v, current@, Some(mv)),
                None => r matches Err(e) && e.kind_spec() == UpdateErrorKind::CheckFailed,
            },
        },
{
    match source {
        None => Ok(check_manifest(current, &None)),
        Some(text) => match parse_manifest_text(text.as_str()) {
            Some(m) => Ok(check_manifest(current, &Some(m))),
            None => Err(
                UpdateError::CheckFailed(
                    String::from_str("the manifest source did not parse as a manifest"),
                ),
            ),
        },
    }
}

/// A manifest that reports the running version never yields an available
/// update.
pub proof fn lemma_same_version_never_available(
    v: UpdateVerdict,
    current: Seq<char>,
    m: ManifestView,
)
    requires
        verdict_ok(v, current, Some(m)),
        m.version == current,
    ensures
        !v.available,
{
}

/// A manifest that reports any other version always yields an available
/// update, with the manifest's locator passed through intact.
pub proof fn lemma_other_version_always_available(
    v: UpdateVerdict,
    current: Seq<char>,
    m: ManifestView,
)
    requires
        verdict_ok(v, current, Some(m)),
        m.version != current,
    ensures
        v.available,
        v.artifact_locator matches Some(l) && l@ == m.artifact_locator,
{
}

} // verus!
