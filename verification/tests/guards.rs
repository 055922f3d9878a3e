use tulip::guard::{
    build_guard, clear_guard, fetch_guard, grade_guard, init_overlay_guard, project_guard,
    pull_image_guard, run_guard, GuardError,
};
use tulip::status::{Status, StudentConfig};

fn student() -> StudentConfig {
    StudentConfig {
        student_id: String::from("s42"),
        build_shell: String::from("build.sh"),
        run_shell: String::from("run.sh"),
        notification: String::from(""),
        report: None,
    }
}

fn ready_status() -> Status {
    let mut s = Status::default();
    s.set_image();
    s.start_project(student());
    s.set_mount(String::from("/mnt"));
    s
}

#[test]
fn pull_image_refused_while_image_present() {
    let mut s = Status::default();
    s.set_image();
    assert_eq!(pull_image_guard(&s, false), Err(GuardError::ImageExists));
    assert_eq!(pull_image_guard(&s, true), Ok(()));
    assert_eq!(pull_image_guard(&Status::default(), false), Ok(()));
}

#[test]
fn fetch_requires_prior_submit_unless_forced() {
    let mut s = Status::default();
    s.set_image();
    s.start_project(student());
    assert_eq!(fetch_guard(&s, false), Err(GuardError::NotSubmitted));
    assert_eq!(fetch_guard(&s, true), Ok(()));
    s.set_submitted();
    assert_eq!(fetch_guard(&s, false), Ok(()));
    assert_eq!(fetch_guard(&Status::default(), false), Ok(()));
}

#[test]
fn init_overlay_requires_image_project_and_no_mount() {
    let mut s = Status::default();
    assert_eq!(init_overlay_guard(&s, false), Err(GuardError::NoImage));
    s.set_image();
    assert_eq!(init_overlay_guard(&s, false), Err(GuardError::NoProject));
    s.start_project(student());
    assert_eq!(init_overlay_guard(&s, false), Ok(()));
    s.set_mount(String::from("/mnt"));
    assert_eq!(init_overlay_guard(&s, false), Err(GuardError::AlreadyMounted));
    assert_eq!(init_overlay_guard(&s, true), Ok(()));
}

#[test]
fn init_overlay_rejected_without_project_even_when_forced() {
    let mut s = Status::default();
    s.set_image();
    assert!(init_overlay_guard(&s, false).is_err());
    assert!(init_overlay_guard(&s, true).is_err());
}

#[test]
fn build_refused_when_already_built_without_rebuild() {
    let mut s = ready_status();
    let lines: Vec<String> = Vec::new();
    tulip::supervise::build_outcome(&mut s, true, &lines, &lines).unwrap();
    assert!(s.built);
    assert_eq!(build_guard(&s, false), Err(GuardError::AlreadyBuilt));
    assert_eq!(build_guard(&s, true), Ok(()));
}

#[test]
fn build_requires_project_and_mount() {
    let mut s = Status::default();
    assert_eq!(build_guard(&s, false), Err(GuardError::NoProject));
    s.set_image();
    s.start_project(student());
    assert_eq!(build_guard(&s, false), Err(GuardError::NotMounted));
    s.set_mount(String::from("/mnt"));
    assert_eq!(build_guard(&s, false), Ok(()));
}

#[test]
fn run_requires_build_unless_waived() {
    let mut s = ready_status();
    assert_eq!(run_guard(&s, false), Err(GuardError::NotBuilt));
    assert_eq!(run_guard(&s, true), Ok(()));
    let lines: Vec<String> = Vec::new();
    tulip::supervise::build_outcome(&mut s, true, &lines, &lines).unwrap();
    assert_eq!(run_guard(&s, false), Ok(()));
    assert_eq!(run_guard(&Status::default(), false), Err(GuardError::NoProject));
    let mut no_mount = Status::default();
    no_mount.set_image();
    no_mount.start_project(student());
    assert_eq!(run_guard(&no_mount, false), Err(GuardError::NotMounted));
}

#[test]
fn grade_checks_project_override_and_range() {
    let mut s = Status::default();
    assert_eq!(grade_guard(&s, 5, false, 10), Err(GuardError::NoProject));
    s.set_image();
    s.start_project(student());
    assert_eq!(grade_guard(&s, 11, false, 10), Err(GuardError::ScoreOutOfRange));
    assert_eq!(grade_guard(&s, 5, false, 10), Ok(()));
    s.set_grade(5);
    assert_eq!(grade_guard(&s, 6, false, 10), Err(GuardError::AlreadyGraded));
    assert_eq!(grade_guard(&s, 6, true, 10), Ok(()));
}

#[test]
fn clear_requires_submission_while_project_active() {
    let mut s = Status::default();
    assert_eq!(clear_guard(&s), Ok(()));
    s.set_image();
    s.start_project(student());
    assert_eq!(clear_guard(&s), Err(GuardError::NotSubmitted));
    s.set_submitted();
    assert_eq!(clear_guard(&s), Ok(()));
}

#[test]
fn project_guard_needs_a_project() {
    assert_eq!(project_guard(&Status::default()), Err(GuardError::NoProject));
    let mut s = Status::default();
    s.set_image();
    s.start_project(student());
    assert_eq!(project_guard(&s), Ok(()));
}

#[test]
fn destroy_overlay_is_idempotent() {
    let mut s = ready_status();
    let lines: Vec<String> = Vec::new();
    tulip::supervise::build_outcome(&mut s, true, &lines, &lines).unwrap();
    s.destroy_overlay();
    assert_eq!(s.mount, None);
    assert!(!s.built);
    let after_first = s.clone();
    s.destroy_overlay();
    assert_eq!(s.mount, None);
    assert!(!s.built);
    assert_eq!(s, after_first);
}

#[test]
fn clear_resets_everything_but_the_image() {
    let mut s = ready_status();
    s.set_grade(3);
    s.set_mark(true);
    s.set_comment(String::from("note"));
    s.clear();
    assert_eq!(s.mount, None);
    assert!(!s.built);
    assert_eq!(s.graded, None);
    assert_eq!(s.comment, None);
    assert!(s.in_progress.is_none());
    assert!(!s.submitted);
    assert!(s.image);
    assert!(!s.mark);
    assert_eq!(s.stdout, None);
}

#[test]
fn start_project_resets_and_sets_the_project() {
    let mut s = ready_status();
    s.set_grade(3);
    let next = StudentConfig {
        student_id: String::from("s43"),
        build_shell: String::from("b.sh"),
        run_shell: String::from("r.sh"),
        notification: String::from("hello"),
        report: Some(String::from("report.pdf")),
    };
    s.start_project(next.clone());
    assert_eq!(s.in_progress, Some(next));
    assert_eq!(s.graded, None);
    assert_eq!(s.mount, None);
    assert!(s.image);
}

#[test]
fn submission_copies_the_record() {
    let mut s = ready_status();
    s.set_grade(9);
    s.set_comment(String::from("ok"));
    s.set_mark(true);
    let sub = s.get_submission(true);
    assert_eq!(sub.graded, Some(9));
    assert_eq!(sub.comment, Some(String::from("ok")));
    assert!(sub.mark);
    assert!(sub.override_existing);
    assert_eq!(sub.stdout, s.stdout);
    assert_eq!(sub.build_stdout, s.build_stdout);
    assert_eq!(sub.build_stderr, s.build_stderr);
}

#[test]
fn guard_messages_match_the_reported_texts() {
    assert_eq!(
        GuardError::NoImage.message(),
        "please pull down a base image first"
    );
    assert_eq!(GuardError::AlreadyBuilt.message(), "already built");
    assert_eq!(GuardError::ScoreOutOfRange.message(), "score out of range");
}
