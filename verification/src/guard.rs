//! The state-machine guard: every privileged or irreversible operation is
//! checked against the persisted record first, and each violated
//! precondition is a distinct fatal error. Explicit force flags are the only
//! override.

use vstd::prelude::*;

use crate::status::Status;

verus! {

/// One violated precondition. The caller reports it and exits nonzero
/// without spawning any subprocess.
#[derive(Debug, Clone, Copy, PartialEq, Eq, Structural)]
pub enum GuardError {
    /// No base image has been pulled yet.
    NoImage,
    /// A base image is already present.
    ImageExists,
    /// No project is in progress.
    NoProject,
    /// The current project has not been submitted or skipped.
    NotSubmitted,
    /// An overlay root is already mounted.
    AlreadyMounted,
    /// No overlay root is mounted.
    NotMounted,
    /// The current project is already built.
    AlreadyBuilt,
    /// The current project has not been built.
    NotBuilt,
    /// A grade has already been recorded.
    AlreadyGraded,
    /// The score exceeds the largest grade the policy allows.
    ScoreOutOfRange,
}

impl GuardError {
    /// The message reported for this violation.
    pub open spec fn message_spec(self) -> Seq<char> {
        match self {
            GuardError::NoImage => "please pull down a base image first"@,
            GuardError::ImageExists => "image existed"@,
            GuardError::NoProject => "no current project"@,
            GuardError::NotSubmitted => "please submit or skip the current project first"@,
            GuardError::AlreadyMounted => "please umount the current overlay system first"@,
            GuardError::NotMounted => "please init overlay layer first"@,
            GuardError::AlreadyBuilt => "already built"@,
            GuardError::NotBuilt => "please build the project first"@,
            GuardError::AlreadyGraded => "grading exists"@,
            GuardError::ScoreOutOfRange => "score out of range"@,
        }
    }

    /// Renders the message reported for this violation.
    pub fn message(&self) -> (r: String)
        ensures
            r@ == self.message_spec(),
    {
        match self {
            GuardError::NoImage => String::from_str("please pull down a base image first"),
            GuardError::ImageExists => String::from_str("image existed"),
            GuardError::NoProject => String::from_str("no current project"),
            GuardError::NotSubmitted => String::from_str(
                "please submit or skip the current project first",
            ),
            GuardError::AlreadyMounted => String::from_str(
                "please umount the current overlay system first",
            ),
            GuardError::NotMounted => String::from_str("please init overlay layer first"),
            GuardError::AlreadyBuilt => String::from_str("already built"),
            GuardError::NotBuilt => String::from_str("please build the project first"),
            GuardError::AlreadyGraded => String::from_str("grading exists"),
            GuardError::ScoreOutOfRange => String::from_str("score out of range"),
        }
    }
}

/// The decision for pulling a base image: refused while an image is present,
/// unless forced.
pub open spec fn pull_image_check(s: Status, force: bool) -> Result<(), GuardError> {
    if s.image && !force {
        Err(GuardError::ImageExists)
    } else {
        Ok(())
    }
}

/// Guards PullImage.
pub fn pull_image_guard(s: &Status, force: bool) -> (r: Result<(), GuardError>)
    ensures
        r == pull_image_check(*s, force),
{
    if s.image && !force {
        Err(GuardError::ImageExists)
    } else {
        Ok(())
    }
}

/// The decision for fetching the next project: a project still in progress
/// must have been submitted first, unless forced.
pub open spec fn fetch_check(s: Status, force: bool) -> Result<(), GuardError> {
    if s.in_progress.is_some() && !s.submitted && !force {
        Err(GuardError::NotSubmitted)
    } else {
        Ok(())
    }
}

/// Guards Fetch.
pub fn fetch_guard(s: &Status, force: bool) -> (r: Result<(), GuardError>)
    ensures
        r == fetch_check(*s, force),
{
    if s.in_progress.is_some() && !s.submitted && !force {
        Err(GuardError::NotSubmitted)
    } else {
        Ok(())
    }
}

/// The decision for mounting the overlay root: an image must be present, a
/// project must be in progress, and nothing may already be mounted unless
/// forced.
pub open spec fn init_overlay_check(s: Status, force: bool) -> Result<(), GuardError> {
    if !s.image {
        Err(GuardError::NoImage)
    } else if s.in_progress.is_none() {
        Err(GuardError::NoProject)
    } else if s.mount.is_some() && !force {
        Err(GuardError::AlreadyMounted)
    } else {
        Ok(())
    }
}

/// Guards InitOverlay. On rejection the privileged overlay-init helper is
/// never invoked.
pub fn init_overlay_guard(s: &Status, force: bool) -> (r: Result<(), GuardError>)
    ensures
        r == init_overlay_check(*s, force),
{
    if !s.image {
        Err(GuardError::NoImage)
    } else if s.in_progress.is_none() {
        Err(GuardError::NoProject)
    } else if s.mount.is_some() && !force {
        Err(GuardError::AlreadyMounted)
    } else {
        Ok(())
    }
}

/// The decision for building: refused when already built and no rebuild was
/// asked, and a project and a mounted root are required.
pub open spec fn build_check(s: Status, rebuild: bool) -> Result<(), GuardError> {
    if s.built && !rebuild {
        Err(GuardError::AlreadyBuilt)
    } else if s.in_progress.is_none() {
        Err(GuardError::NoProject)
    } else if s.mount.is_none() {
        Err(GuardError::NotMounted)
    } else {
        Ok(())
    }
}

/// Guards Build. On rejection no subprocess is spawned.
pub fn build_guard(s: &Status, rebuild: bool) -> (r: Result<(), GuardError>)
    ensures
        r == build_check(*s, rebuild),
{
    if s.built && !rebuild {
        Err(GuardError::AlreadyBuilt)
    } else if s.in_progress.is_none() {
        Err(GuardError::NoProject)
    } else if s.mount.is_none() {
        Err(GuardError::NotMounted)
    } else {
        Ok(())
    }
}

/// The decision for running: a project and a mounted root are required, and
/// the project must be built unless running without a build was asked.
pub open spec fn run_check(s: Status, without_build: bool) -> Result<(), GuardError> {
    if s.in_progress.is_none() {
        Err(GuardError::NoProject)
    } else if s.mount.is_none() {
        Err(GuardError::NotMounted)
    } else if !s.built && !without_build {
        Err(GuardError::NotBuilt)
    } else {
        Ok(())
    }
}

/// Guards Run.
pub fn run_guard(s: &Status, without_build: bool) -> (r: Result<(), GuardError>)
    ensures
        r == run_check(*s, without_build),
{
    if s.in_progress.is_none() {
        Err(GuardError::NoProject)
    } else if s.mount.is_none() {
        Err(GuardError::NotMounted)
    } else if !s.built && !without_build {
        Err(GuardError::NotBuilt)
    } else {
        Ok(())
    }
}

/// The decision for grading: a project must be in progress, an existing grade
/// is kept unless overriding, and the score may not exceed the policy's
/// maximum.
pub open spec fn grade_check(
    s: Status,
    score: usize,
    override_existing: bool,
    max_grade: usize,
) -> Result<(), GuardError> {
    if s.in_progress.is_none() {
        Err(GuardError::NoProject)
    } else if s.graded.is_some() && !override_existing {
        Err(GuardError::AlreadyGraded)
    } else if score > max_grade {
        Err(GuardError::ScoreOutOfRange)
    } else {
        Ok(())
    }
}

/// Guards Grade.
pub fn grade_guard(
    s: &Status,
    score: usize,
    override_existing: bool,
    max_grade: usize,
) -> (r: Result<(), GuardError>)
    ensures
        r == grade_check(*s, score, override_existing, max_grade),
{
    if s.in_progress.is_none() {
        Err(GuardError::NoProject)
    } else if s.graded.is_some() && !override_existing {
        Err(GuardError::AlreadyGraded)
    } else if score > max_grade {
        Err(GuardError::ScoreOutOfRange)
    } else {
        Ok(())
    }
}

/// The decision for the operations that only need a project in progress:
/// commenting, marking and submitting.
pub open spec fn project_check(s: Status) -> Result<(), GuardError> {
    if s.in_progress.is_none() {
        Err(GuardError::NoProject)
    } else {
        Ok(())
    }
}

/// Guards Comment, Mark, Submit and Skip.
pub fn project_guard(s: &Status) -> (r: Result<(), GuardError>)
    ensures
        r == project_check(*s),
{
    if s.in_progress.is_none() {
        Err(GuardError::NoProject)
    } else {
        Ok(())
    }
}

/// The decision for clearing: a project still in progress must have been
/// submitted first.
pub open spec fn clear_check(s: Status) -> Result<(), GuardError> {
    if s.in_progress.is_some() && !s.submitted {
        Err(GuardError::NotSubmitted)
    } else {
        Ok(())
    }
}

/// Guards Clear.
pub fn clear_guard(s: &Status) -> (r: Result<(), GuardError>)
    ensures
        r == clear_check(*s),
{
    if s.in_progress.is_some() && !s.submitted {
        Err(GuardError::NotSubmitted)
    } else {
        Ok(())
    }
}

/// A record that violates `mount.is_some() ==> in_progress.is_some()` is
/// rejected before the overlay-init helper could be invoked: whenever no
/// project is in progress, InitOverlay is refused, force flag or not.
pub proof fn lemma_init_overlay_rejects_without_project(s: Status, force: bool)
    requires
        s.in_progress.is_none(),
    ensures
        init_overlay_check(s, force).is_err(),
{
}

/// Build is refused outright when the project is already built and no
/// rebuild was asked, whatever else the record holds.
pub proof fn lemma_build_refused_when_built(s: Status)
    requires
        s.built,
    ensures
        build_check(s, false) == Err::<(), GuardError>(GuardError::AlreadyBuilt),
{
}

} // verus!
