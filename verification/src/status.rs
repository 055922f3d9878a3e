//! The persisted lifecycle record of the current project, the invariant it
//! keeps, and the transitions the operations apply to it.

use vstd::prelude::*;

verus! {

/// One fetched student project; immutable once fetched, replaced wholesale.
#[derive(Debug, Clone, PartialEq)]
pub struct StudentConfig {
    pub student_id: String,
    /// Build script path, relative to the synced project data.
    pub build_shell: String,
    /// Run script path, relative to the synced project data.
    pub run_shell: String,
    pub notification: String,
    pub report: Option<String>,
}

/// The singleton lifecycle record. Every operation loads it, checks its
/// preconditions against it, and persists the mutated copy on success.
#[derive(Debug, Clone, PartialEq)]
pub struct Status {
    /// The canonicalized overlay mount point, while one is mounted.
    pub mount: Option<String>,
    pub built: bool,
    pub graded: Option<usize>,
    pub comment: Option<String>,
    pub in_progress: Option<StudentConfig>,
    pub submitted: bool,
    /// Whether the base image has been pulled and unpacked.
    pub image: bool,
    pub mark: bool,
    pub stdout: Option<String>,
    pub stderr: Option<String>,
    pub build_stdout: Option<String>,
    pub build_stderr: Option<String>,
}

/// What is posted to the server when the current grading is submitted.
#[derive(Debug, Clone, PartialEq)]
pub struct Submission {
    pub graded: Option<usize>,
    pub comment: Option<String>,
    pub mark: bool,
    pub stdout: Option<String>,
    pub stderr: Option<String>,
    pub build_stdout: Option<String>,
    pub build_stderr: Option<String>,
    /// Whether an existing submission may be replaced.
    pub override_existing: bool,
}

/// The all-defaults record, written at registration.
pub open spec fn initial_status() -> Status {
    Status {
        mount: None,
        built: false,
        graded: None,
        comment: None,
        in_progress: None,
        submitted: false,
        image: false,
        mark: false,
        stdout: None,
        stderr: None,
        build_stdout: None,
        build_stderr: None,
    }
}

/// `s` after the full reset that advancing to a new project or clearing
/// applies: everything back to its default except the pulled image.
pub open spec fn reset_keeping_image(s: Status) -> Status {
    Status { image: s.image, ..initial_status() }
}

/// `s` after the overlay root is destroyed: the record no longer claims a
/// mount nor a build, whatever the unmount commands did.
pub open spec fn destroyed(s: Status) -> Status {
    Status { mount: None, built: false, ..s }
}

impl Status {
    /// The invariant every persisted record keeps: a mounted overlay implies
    /// a pulled image and a project in progress; a build implies a mount;
    /// a submission or a grade implies a project in progress.
    pub open spec fn wf(self) -> bool {
        &&& self.mount.is_some() ==> self.image && self.in_progress.is_some()
        &&& self.built ==> self.mount.is_some()
        &&& self.submitted ==> self.in_progress.is_some()
        &&& self.graded.is_some() ==> self.in_progress.is_some()
    }

    /// Marks the base image as pulled and unpacked.
    pub fn set_image(&mut self)
        ensures
            *final(self) == (Status { image: true, ..*old(self) }),
            old(self).wf() ==> final(self).wf(),
    {
        self.image = true;
    }

    /// Full reset except the pulled image, applied by clear, skip and fetch.
    pub fn clear(&mut self)
        ensures
            *final(self) == reset_keeping_image(*old(self)),
            final(self).wf(),
    {
        let image = self.image;
        *self = Status {
            mount: None,
            built: false,
            graded: None,
            comment: None,
            in_progress: None,
            submitted: false,
            image,
            mark: false,
            stdout: None,
            stderr: None,
            build_stdout: None,
            build_stderr: None,
        };
    }

    /// Starts a freshly fetched project: a full reset keeping the image, then
    /// the project set in progress.
    pub fn start_project(&mut self, student: StudentConfig)
        ensures
            *final(self) == (Status { in_progress: Some(student), ..reset_keeping_image(*old(self)) }),
            final(self).wf(),
    {
        self.clear();
        self.in_progress = Some(student);
    }

    /// Records a freshly mounted overlay root.
    pub fn set_mount(&mut self, mount_point: String)
        requires
            old(self).image,
            old(self).in_progress.is_some(),
        ensures
            *final(self) == (Status { mount: Some(mount_point), ..*old(self) }),
            old(self).wf() ==> final(self).wf(),
    {
        self.mount = Some(mount_point);
    }

    /// Records the destruction of the overlay root. Unconditional, so the
    /// record never claims a stale mount; repeating it changes nothing.
    pub fn destroy_overlay(&mut self)
        ensures
            *final(self) == destroyed(*old(self)),
            final(self).mount.is_none(),
            !final(self).built,
            old(self).wf() ==> final(self).wf(),
    {
        self.mount = None;
        self.built = false;
    }

    /// Records a successful build together with its captured output.
    pub fn record_build(&mut self, stdout: String, stderr: String)
        requires
            old(self).mount.is_some(),
        ensures
            *final(self) == (Status {
                built: true,
                stdout: Some(stdout),
                stderr: Some(stderr),
                ..*old(self)
            }),
            old(self).wf() ==> final(self).wf(),
    {
        self.built = true;
        self.stdout = Some(stdout);
        self.stderr = Some(stderr);
    }

    /// Records the captured output of a successful run, overwriting prior
    /// captures.
    pub fn record_run(&mut self, stdout: String, stderr: String)
        ensures
            *final(self) == (Status {
                stdout: Some(stdout),
                stderr: Some(stderr),
                ..*old(self)
            }),
            old(self).wf() ==> final(self).wf(),
    {
        self.stdout = Some(stdout);
        self.stderr = Some(stderr);
    }

    /// Records a grade for the project in progress.
    pub fn set_grade(&mut self, score: usize)
        requires
            old(self).in_progress.is_some(),
        ensures
            *final(self) == (Status { graded: Some(score), ..*old(self) }),
            old(self).wf() ==> final(self).wf(),
    {
        self.graded = Some(score);
    }

    /// Sets or removes the mark on the project in progress.
    pub fn set_mark(&mut self, on: bool)
        requires
            old(self).in_progress.is_some(),
        ensures
            *final(self) == (Status { mark: on, ..*old(self) }),
            old(self).wf() ==> final(self).wf(),
    {
        self.mark = on;
    }

    /// Replaces the comment on the project in progress.
    pub fn set_comment(&mut self, text: String)
        requires
            old(self).in_progress.is_some(),
        ensures
            *final(self) == (Status { comment: Some(text), ..*old(self) }),
            old(self).wf() ==> final(self).wf(),
    {
        self.comment = Some(text);
    }

    /// Records that the current grading was submitted.
    pub fn set_submitted(&mut self)
        requires
            old(self).in_progress.is_some(),
        ensures
            *final(self) == (Status { submitted: true, ..*old(self) }),
            old(self).wf() ==> final(self).wf(),
    {
        self.submitted = true;
    }

    /// The submission posted to the server, copied field by field from the
    /// record.
    pub fn get_submission(&self, override_existing: bool) -> (r: Submission)
        ensures
            r.graded == self.graded,
            r.comment == self.comment,
            r.mark == self.mark,
            r.stdout == self.stdout,
            r.stderr == self.stderr,
            r.build_stdout == self.build_stdout,
            r.build_stderr == self.build_stderr,
            r.override_existing == override_existing,
    {
        Submission {
            graded: self.graded.clone(),
            comment: self.comment.clone(),
            mark: self.mark,
            stdout: self.stdout.clone(),
            stderr: self.stderr.clone(),
            build_stdout: self.build_stdout.clone(),
            build_stderr: self.build_stderr.clone(),
            override_existing,
        }
    }
}

impl Default for Status {
    /// The all-defaults record.
    fn default() -> (r: Status)
        ensures
            r == initial_status(),
            r.wf(),
    {
        Status {
            mount: None,
            built: false,
            graded: None,
            comment: None,
            in_progress: None,
            submitted: false,
            image: false,
            mark: false,
            stdout: None,
            stderr: None,
            build_stdout: None,
            build_stderr: None,
        }
    }
}

/// A well-formed record never claims a mount without a project in progress.
pub proof fn lemma_mount_implies_project(s: Status)
    requires
        s.wf(),
    ensures
        s.mount.is_some() ==> s.in_progress.is_some(),
{
}

/// Destroying the overlay root is idempotent: a second destruction leaves
/// exactly the record the first one left, with no mount and no build.
pub proof fn lemma_destroy_idempotent(s: Status)
    ensures
        destroyed(destroyed(s)) == destroyed(s),
        destroyed(s).mount.is_none(),
        !destroyed(s).built,
{
}

} // verus!
