//! The update controller: the public two-step contract over the pipeline.
//!
//! `check` is safe to poll and free of side effects; `apply` runs fetch,
//! extraction and swap handoff in order, short-circuiting on the first
//! component failure. The controller carries the one piece of mutable state
//! the flow has — which phase it is in — and rejects a second apply while one
//! is pending, since two swaps racing for the same install path is undefined.
//! The retrieval, the writes to the staging area and the helper launch happen
//! outside the library; each step's observation comes back here as plain
//! values and the controller decides what follows.

use vstd::prelude::*;

use crate::archive::ArchiveEntry;
use crate::archive::ExtractPlan;
use crate::archive::entry_views;
use crate::archive::has_installable;
use crate::archive::is_first_installable;
use crate::archive::plan_extract;
use crate::archive::planned_writes;
use crate::artifact::ArtifactKind;
use crate::artifact::FetchResponse;
use crate::artifact::StagedArtifact;
use crate::artifact::stage_payload;
use crate::artifact::staging_ok;
use crate::errors::UpdateError;
use crate::errors::UpdateErrorKind;
use crate::locator::classify_locator;
use crate::locator::locator_kind_spec;
use crate::locator::rewrite_locator;
use crate::locator::rewrite_spec;
use crate::swap::InstallTarget;
use crate::swap::SwapScript;
use crate::text::string_views;
use crate::version::Manifest;
use crate::version::UpdateVerdict;
use crate::version::check_manifest;
use crate::version::check_source;
use crate::version::parsed_manifest;
use crate::version::verdict_ok;

verus! {

/// Which logical operation is in flight.
#[derive(Debug, Clone, Copy, PartialEq, Eq, Structural)]
pub enum Phase {
    Idle,
    Checking,
    Applying,
}

/// Coordinates the pipeline and owns the "in progress" state.
#[derive(Debug)]
pub struct UpdateController {
    /// The running build's version identifier, caller-supplied once.
    pub current_version: String,
    /// The phase the controller is in.
    pub phase: Phase,
    /// While an apply is pending: what kind of payload its locator names.
    pub pending_kind: Option<ArtifactKind>,
}

impl UpdateController {
    /// The controller's invariant: a pending payload kind is carried exactly
    /// while an apply is in flight.
    pub open spec fn wf(&self) -> bool {
        (self.phase is Applying) == (self.pending_kind is Some)
    }

    /// A fresh, idle controller for the given running version.
    pub fn new(current_version: String) -> (c: UpdateController)
        ensures
            c.wf(),
            c.phase is Idle,
            c.current_version@ == current_version@,
    {
        UpdateController { current_version, phase: Phase::Idle, pending_kind: None }
    }

    /// Reports the running build's version identifier.
    pub fn version(&self) -> (v: &String)
        ensures
            v@ == self.current_version@,
    {
        &self.current_version
    }

    /// Marks a check as in flight. A check has no side effects to undo, so
    /// this never rejects anything; an apply already in flight keeps its
    /// phase.
    pub fn begin_check(&mut self)
        requires
            old(self).wf(),
        ensures
            final (self).wf(),
            final (self).current_version == old(self).current_version,
            final (self).pending_kind == old(self).pending_kind,
            final (self).phase == if old(self).phase is Idle {
                Phase::Checking
            } else {
                old(self).phase
            },
    {
        if self.phase == Phase::Idle {
            self.phase = Phase::Checking;
        }
    }

    /// Concludes a check from the manifest its source yielded, or from the
    /// source's absence. Produces a fresh verdict and leaves no other trace.
    pub fn finish_check(&mut self, manifest: &Option<Manifest>) -> (v: UpdateVerdict)
        requires
            old(self).wf(),
        ensures
            final (self).wf(),
            verdict_ok(
                v,
                old(self).current_version@,
                match manifest {
                    Some(m) => Some(m@),
                    None => None,
                },
            ),
            final (self).current_version == old(self).current_version,
            final (self).pending_kind == old(self).pending_kind,
            final (self).phase == if old(self).phase is Checking {
                Phase::Idle
            } else {
                old(self).phase
            },
    {
        if self.phase == Phase::Checking {
            self.phase = Phase::Idle;
        }
        check_manifest(&self.current_version, manifest)
    }

    /// Concludes a check from the raw text of the manifest source. Text that
    /// does not parse as a manifest is a non-transient check failure; an
    /// absent source is simply "no update".
    pub fn finish_check_source(&mut self, source: &Option<String>) -> (r: Result<
        UpdateVerdict,
        UpdateError,
    >)
        requires
            old(self).wf(),
        ensures
            final (self).wf(),
            match source {
                None => r matches Ok(v) && verdict_ok(v, old(self).current_version@, None),
                Some(text) => match parsed_manifest(text@) {
                    Some(mv) => r matches Ok(v) && verdict_ok(
                        v,
                        old(self).current_version@,
                        Some(mv),
                    ),
                    None => r matches Err(e) && e.kind_spec() == UpdateErrorKind::CheckFailed,
                },
            },
            final (self).current_version == old(self).current_version,
            final (self).pending_kind == old(self).pending_kind,
            final (self).phase == if old(self).phase is Checking {
                Phase::Idle
            } else {
                old(self).phase
            },
    {
        if self.phase == Phase::Checking {
            self.phase = Phase::Idle;
        }
        check_source(&self.current_version, source)
    }

    /// Starts an apply for an available verdict. A second apply while one is
    /// pending is rejected with [`UpdateErrorKind::UpdateInProgress`] and
    /// changes nothing, so the pending apply's outcome is unaffected; a
    /// verdict with nothing to apply is a caller-contract violation reported
    /// as [`UpdateErrorKind::NoUpdateAvailable`]. On success the locator is
    /// rewritten into its direct form, the payload kind is recorded, and the
    /// direct locator is returned for retrieval.
    pub fn begin_apply(&mut self, verdict: &UpdateVerdict) -> (r: Result<String, UpdateError>)
        requires
            old(self).wf(),
        ensures
            final (self).wf(),
            final (self).current_version == old(self).current_version,
            old(self).phase is Applying ==> (r matches Err(e) && e
                matches UpdateError::UpdateInProgress && *final (self) == *old(self)),
            !(old(self).phase is Applying) && !(verdict.available
                && verdict.artifact_locator is Some) ==> (r matches Err(e) && e
                matches UpdateError::NoUpdateAvailable && *final (self) == *old(self)),
            verdict.artifact_locator matches Some(l) ==> ((!(old(self).phase is Applying)
                && verdict.available) ==> (r matches Ok(direct) && direct@ == rewrite_spec(l@)
                && final (self).phase is Applying && final (self).pending_kind == Some(
                locator_kind_spec(l@),
            ))),
    {
        if self.phase == Phase::Applying {
            return Err(UpdateError::UpdateInProgress);
        }
        if !verdict.available {
            return Err(UpdateError::NoUpdateAvailable);
        }
        match &verdict.artifact_locator {
            None => Err(UpdateError::NoUpdateAvailable),
            Some(l) => {
                let kind = classify_locator(l.as_str());
                let direct = rewrite_locator(l.as_str());
                self.phase = Phase::Applying;
                self.pending_kind = Some(kind);
                Ok(direct)
            },
        }
    }

    /// Judges the retrieved payload against the pending apply's expected
    /// kind. A rejected payload ends the apply with the exact error the
    /// validation policy prescribes and nothing installed; an accepted one
    /// is recorded as staged at `staging_path` and the apply stays pending.
    pub fn stage_fetched(&mut self, resp: &FetchResponse, staging_path: &String) -> (r: Result<
        StagedArtifact,
        UpdateError,
    >)
        requires
            old(self).wf(),
            old(self).phase is Applying,
        ensures
            final (self).wf(),
            final (self).current_version == old(self).current_version,
            old(self).pending_kind matches Some(kind) ==> staging_ok(
                r,
                resp.status,
                resp.content_type@,
                resp.body@,
                kind,
                staging_path@,
            ),
            r is Ok ==> *final (self) == *old(self),
            r is Err ==> final (self).phase is Idle && final (self).pending_kind is None,
    {
        let kind = self.pending_kind.unwrap();
        let r = stage_payload(resp, kind, staging_path);
        if r.is_err() {
            self.phase = Phase::Idle;
            self.pending_kind = None;
        }
        r
    }

    /// Plans the extraction of a staged bundle. A bundle without an
    /// installable executable ends the apply as a fatal, non-retryable
    /// fault; otherwise the plan's writes all stay inside the destination
    /// and the apply stays pending.
    pub fn plan_bundle(&mut self, entries: &Vec<ArchiveEntry>) -> (r: Result<
        ExtractPlan,
        UpdateError,
    >)
        requires
            old(self).wf(),
            old(self).phase is Applying,
        ensures
            final (self).wf(),
            final (self).current_version == old(self).current_version,
            (r is Ok) == has_installable(entry_views(entries@)),
            r matches Ok(p) ==> (string_views(p.writes@) == planned_writes(entry_views(entries@))
                && is_first_installable(entry_views(entries@), p.executable@)),
            r matches Err(e) ==> (e matches UpdateError::NoExecutableInArchive),
            r is Ok ==> *final (self) == *old(self),
            r is Err ==> final (self).phase is Idle && final (self).pending_kind is None,
    {
        let r = plan_extract(entries);
        if r.is_err() {
            self.phase = Phase::Idle;
            self.pending_kind = None;
        }
        r
    }

    /// Describes the swap handoff for the pending apply: the helper waits
    /// for this process to exit, copies `new_executable` over the target and
    /// relaunches it, then deletes the staging paths and itself.
    pub fn prepare_swap(
        &self,
        target: &InstallTarget,
        new_executable: &String,
        cleanup: Vec<String>,
    ) -> (s: SwapScript)
        requires
            self.wf(),
            self.phase is Applying,
        ensures
            s.wait_pid == target.process_id,
            s.source@ == new_executable@,
            s.destination@ == target.executable_path@,
            s.cleanup == cleanup,
    {
        SwapScript::new(target, new_executable, cleanup)
    }

    /// Records whether the detached helper could be started. Once it is, the
    /// flow is committed: the caller must end the process, and everything
    /// after is the helper's. A launch failure ends the apply with
    /// [`UpdateErrorKind::SwapLaunchFailed`] and the old version keeps
    /// running, untouched.
    pub fn helper_launched(&mut self, launched: bool, diagnostic: String) -> (r: Result<
        (),
        UpdateError,
    >)
        requires
            old(self).wf(),
            old(self).phase is Applying,
        ensures
            final (self).wf(),
            final (self).current_version == old(self).current_version,
            launched ==> r is Ok && *final (self) == *old(self),
            !launched ==> (r matches Err(e) && e matches UpdateError::SwapLaunchFailed(d) && d@
                == diagnostic@ && final (self).phase is Idle && final (self).pending_kind is None),
    {
        if launched {
            Ok(())
        } else {
            self.phase = Phase::Idle;
            self.pending_kind = None;
            Err(UpdateError::SwapLaunchFailed(diagnostic))
        }
    }
}

} // verus!
