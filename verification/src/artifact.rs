//! Validation of a retrieved update payload before it is trusted as a staged
//! artifact.
//!
//! The retrieval itself (HTTP or a shared filesystem) happens outside the
//! library; the plain status, declared content type and bytes come back here
//! to be judged. A payload is only staged when the transport succeeded, the
//! host did not answer with a markup page in place of binary data, the bytes
//! are non-empty, and a compressed bundle carries the archive signature in
//! its leading bytes.

use vstd::prelude::*;

use crate::errors::UpdateError;
use crate::text::dec_digits;
use crate::text::prefix_of;
use crate::text::str_has_prefix;
use crate::text::u64_to_string;

verus! {

/// What the update payload is expected to be.
#[derive(Debug, Clone, Copy, PartialEq, Eq, Structural)]
pub enum ArtifactKind {
    /// A single executable, installed as retrieved.
    RawExecutable,
    /// A compressed bundle that must be extracted first.
    CompressedBundle,
}

/// What the retrieval step observed: transport status, declared content type
/// and the payload bytes.
#[derive(Debug, Clone)]
pub struct FetchResponse {
    pub status: u16,
    pub content_type: String,
    pub body: Vec<u8>,
}

/// A validated payload written to a staging location. Never the installed
/// executable itself: only the detached helper may write to the install path.
#[derive(Debug, Clone)]
pub struct StagedArtifact {
    pub local_path: String,
    pub kind: ArtifactKind,
    pub size_bytes: usize,
    /// The content check the payload passed (magic bytes for a bundle,
    /// non-emptiness for a raw executable).
    pub signature_ok: bool,
}

/// The hard cap on redirect hops the retriever may follow, so a redirect
/// loop cannot become a hang.
pub const MAX_REDIRECT_HOPS: u8 = 10;

/// Whether the retriever may follow one more redirect after `hops` already
/// followed. The retrieval loop runs outside the library and asks before
/// every hop.
pub fn may_follow_redirect(hops: u8) -> (b: bool)
    ensures
        b == (hops < MAX_REDIRECT_HOPS),
{
    hops < MAX_REDIRECT_HOPS
}

/// The transport status indicates success.
pub open spec fn status_ok(status: u16) -> bool {
    200 <= status < 300
}

/// The declared content type indicates a markup page: the usual shape of a
/// sign-in or not-found answer standing in for binary data.
pub open spec fn is_markup_type(ct: Seq<char>) -> bool {
    prefix_of("text/html"@, ct)
}

/// A compressed bundle's leading bytes must spell the archive signature, and
/// the payload must be long enough to hold a header at all.
pub open spec fn bundle_magic_ok(b: Seq<u8>) -> bool {
    b.len() >= 4 && b[0] == 0x50u8 && b[1] == 0x4bu8
}

/// Diagnostic for a markup answer.
pub open spec fn markup_msg(ct: Seq<char>) -> Seq<char> {
    "the source answered with markup of content type "@ + ct
}

/// Diagnostic for an empty payload.
pub open spec fn empty_msg() -> Seq<char> {
    "the payload is empty"@
}

/// Diagnostic for a missing bundle signature, naming the observed size and
/// content type.
pub open spec fn bad_magic_msg(size: nat, ct: Seq<char>) -> Seq<char> {
    "payload of "@ + dec_digits(size) + " bytes with content type "@ + ct
        + " lacks the bundle signature"@
}

/// The payload may be trusted as an artifact of the expected kind.
pub open spec fn payload_acceptable(
    status: u16,
    ct: Seq<char>,
    body: Seq<u8>,
    kind: ArtifactKind,
) -> bool {
    &&& status_ok(status)
    &&& !is_markup_type(ct)
    &&& body.len() > 0
    &&& (kind == ArtifactKind::RawExecutable || bundle_magic_ok(body))
}

/// What a correct staging outcome is, for every combination of observation
/// and expectation: each rejection with its exact error, acceptance with the
/// artifact's fields pinned.
pub open spec fn staging_ok(
    r: Result<StagedArtifact, UpdateError>,
    status: u16,
    ct: Seq<char>,
    body: Seq<u8>,
    kind: ArtifactKind,
    path: Seq<char>,
) -> bool {
    &&& !status_ok(status) ==> (r matches Err(e) && e matches UpdateError::FetchFailed(s) && s
        == status)
    &&& status_ok(status) && is_markup_type(ct) ==> (r matches Err(e) && e
        matches UpdateError::InvalidArtifact(d) && d@ == markup_msg(ct))
    &&& status_ok(status) && !is_markup_type(ct) && body.len() == 0 ==> (r matches Err(e) && e
        matches UpdateError::InvalidArtifact(d) && d@ == empty_msg())
    &&& status_ok(status) && !is_markup_type(ct) && body.len() > 0 && kind
        == ArtifactKind::CompressedBundle && !bundle_magic_ok(body) ==> (r matches Err(e) && e
        matches UpdateError::InvalidArtifact(d) && d@ == bad_magic_msg(body.len(), ct))
    &&& payload_acceptable(status, ct, body, kind) ==> (r matches Ok(a) && a.local_path@ == path
        && a.kind == kind && a.size_bytes == body.len() && a.signature_ok)
}

/// Judges a retrieved payload and, when it passes, records it as a staged
/// artifact at `staging_path`. Rejections carry the exact error the
/// validation policy prescribes; nothing is ever installed here.
pub fn stage_payload(resp: &FetchResponse, kind: ArtifactKind, staging_path: &String) -> (r:
    Result<StagedArtifact, UpdateError>)
    ensures
        staging_ok(r, resp.status, resp.content_type@, resp.body@, kind, staging_path@),
{
    if resp.status < 200 || resp.status >= 300 {
        return Err(UpdateError::FetchFailed(resp.status));
    }
    if str_has_prefix(resp.content_type.as_str(), "text/html") {
        let msg = String::from_str("the source answered with markup of content type ").concat(
            resp.content_type.as_str(),
        );
        return Err(UpdateError::InvalidArtifact(msg));
    }
    if resp.body.len() == 0 {
        return Err(UpdateError::InvalidArtifact(String::from_str("the payload is empty")));
    }
    let magic = resp.body.len() >= 4 && resp.body[0] == 0x50u8 && resp.body[1] == 0x4bu8;
    if kind == ArtifactKind::CompressedBundle && !magic {
        let digits = u64_to_string(resp.body.len() as u64);
        let msg = String::from_str("payload of ").concat(digits.as_str()).concat(
            " bytes with content type ",
        ).concat(resp.content_type.as_str()).concat(" lacks the bundle signature");
        return Err(UpdateError::InvalidArtifact(msg));
    }
    Ok(
        StagedArtifact {
            local_path: staging_path.clone(),
            kind,
            size_bytes: resp.body.len(),
            signature_ok: true,
        },
    )
}

} // verus!
