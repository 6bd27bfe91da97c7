//! The stable error taxonomy of the update flow and its user-facing messages.
//!
//! Component failures are never retried inside the orchestrator; every error
//! surfaces with a stable kind and the underlying diagnostic text preserved as
//! a suffix.

use vstd::prelude::*;

use crate::text::dec_digits;
use crate::text::u64_to_string;

verus! {

/// Everything that can go wrong in the update flow.
#[derive(Debug, Clone)]
pub enum UpdateError {
    /// The manifest was reachable but malformed: a non-transient check fault.
    CheckFailed(String),
    /// `apply` was called with a verdict that offers nothing to apply.
    NoUpdateAvailable,
    /// Transport reported an unsuccessful status while retrieving the payload.
    FetchFailed(u16),
    /// The payload is not a trustworthy artifact (markup, empty, or bad magic).
    InvalidArtifact(String),
    /// The bundle was extracted in full and held no installable executable.
    NoExecutableInArchive,
    /// The detached helper process could not be started.
    SwapLaunchFailed(String),
    /// A second `apply` was attempted while one is already pending.
    UpdateInProgress,
}

/// The stable kind of an [`UpdateError`], without its diagnostic payload.
#[derive(Debug, Clone, Copy, PartialEq, Eq, Structural)]
pub enum UpdateErrorKind {
    CheckFailed,
    NoUpdateAvailable,
    FetchFailed,
    InvalidArtifact,
    NoExecutableInArchive,
    SwapLaunchFailed,
    UpdateInProgress,
}

impl UpdateError {
    /// The stable kind of this error.
    pub open spec fn kind_spec(&self) -> UpdateErrorKind {
        match self {
            UpdateError::CheckFailed(_) => UpdateErrorKind::CheckFailed,
            UpdateError::NoUpdateAvailable => UpdateErrorKind::NoUpdateAvailable,
            UpdateError::FetchFailed(_) => UpdateErrorKind::FetchFailed,
            UpdateError::InvalidArtifact(_) => UpdateErrorKind::InvalidArtifact,
            UpdateError::NoExecutableInArchive => UpdateErrorKind::NoExecutableInArchive,
            UpdateError::SwapLaunchFailed(_) => UpdateErrorKind::SwapLaunchFailed,
            UpdateError::UpdateInProgress => UpdateErrorKind::UpdateInProgress,
        }
    }

    /// The user-facing message for this error: a stable description of the
    /// kind, with the diagnostic preserved as a suffix.
    pub open spec fn message_spec(&self) -> Seq<char> {
        match self {
            UpdateError::CheckFailed(d) => "update check failed: "@ + d@,
            UpdateError::NoUpdateAvailable => "no update is available to apply"@,
            UpdateError::FetchFailed(s) => "fetching the update failed with status "@ + dec_digits(
                *s as nat,
            ),
            UpdateError::InvalidArtifact(d) => "the update payload is not a valid artifact: "@
                + d@,
            UpdateError::NoExecutableInArchive => "the update bundle holds no executable"@,
            UpdateError::SwapLaunchFailed(d) => "the update helper could not be started: "@ + d@,
            UpdateError::UpdateInProgress => "an update is already in progress"@,
        }
    }

    /// Reports the stable kind.
    pub fn kind(&self) -> (k: UpdateErrorKind)
        ensures
            k == self.kind_spec(),
    {
        match self {
            UpdateError::CheckFailed(_) => UpdateErrorKind::CheckFailed,
            UpdateError::NoUpdateAvailable => UpdateErrorKind::NoUpdateAvailable,
            UpdateError::FetchFailed(_) => UpdateErrorKind::FetchFailed,
            UpdateError::InvalidArtifact(_) => UpdateErrorKind::InvalidArtifact,
            UpdateError::NoExecutableInArchive => UpdateErrorKind::NoExecutableInArchive,
            UpdateError::SwapLaunchFailed(_) => UpdateErrorKind::SwapLaunchFailed,
            UpdateError::UpdateInProgress => UpdateErrorKind::UpdateInProgress,
        }
    }

    /// Renders the user-facing message.
    pub fn message(&self) -> (r: String)
        ensures
            r@ == self.message_spec(),
    {
        match self {
            UpdateError::CheckFailed(d) => String::from_str("update check failed: ").concat(
                d.as_str(),
            ),
            UpdateError::NoUpdateAvailable => String::from_str("no update is available to apply"),
            UpdateError::FetchFailed(s) => {
                let digits = u64_to_string(*s as u64);
                String::from_str("fetching the update failed with status ").concat(digits.as_str())
            },
            UpdateError::InvalidArtifact(d) => String::from_str(
                "the update payload is not a valid artifact: ",
            ).concat(d.as_str()),
            UpdateError::NoExecutableInArchive => String::from_str(
                "the update bundle holds no executable",
            ),
            UpdateError::SwapLaunchFailed(d) => String::from_str(
                "the update helper could not be started: ",
            ).concat(d.as_str()),
            UpdateError::UpdateInProgress => String::from_str("an update is already in progress"),
        }
    }
}

} // verus!
