use tulip::status::{Status, StudentConfig};
use tulip::supervise::{build_outcome, join_lines, run_outcome};

fn mounted_status() -> Status {
    let mut s = Status::default();
    s.set_image();
    s.start_project(StudentConfig {
        student_id: String::from("s42"),
        build_shell: String::from("build.sh"),
        run_shell: String::from("run.sh"),
        notification: String::from(""),
        report: None,
    });
    s.set_mount(String::from("/mnt"));
    s
}

fn lines(items: &[&str]) -> Vec<String> {
    items.iter().map(|s| String::from(*s)).collect()
}

#[test]
fn captured_lines_are_newline_joined() {
    assert_eq!(join_lines(&Vec::new()), "");
    assert_eq!(join_lines(&lines(&["a"])), "a\n");
    assert_eq!(join_lines(&lines(&["a", "b", "c"])), "a\nb\nc\n");
    assert_eq!(join_lines(&lines(&["", ""])), "\n\n");
}

#[test]
fn run_persists_exactly_the_captured_lines() {
    let mut s = mounted_status();
    let out = lines(&["one", "two", "three"]);
    let err = lines(&["warn", "fail"]);
    run_outcome(&mut s, true, &out, &err).unwrap();
    let stdout = s.stdout.clone().unwrap();
    let stderr = s.stderr.clone().unwrap();
    assert_eq!(stdout, "one\ntwo\nthree\n");
    assert_eq!(stderr, "warn\nfail\n");
    assert_eq!(stdout.lines().count(), 3);
    assert_eq!(stderr.lines().count(), 2);
    assert!(!s.built);
}

#[test]
fn build_marks_the_record_and_overwrites_captures() {
    let mut s = mounted_status();
    s.stdout = Some(String::from("stale"));
    build_outcome(&mut s, true, &lines(&["fresh"]), &Vec::new()).unwrap();
    assert!(s.built);
    assert_eq!(s.stdout, Some(String::from("fresh\n")));
    assert_eq!(s.stderr, Some(String::from("")));
}

#[test]
fn failed_exit_records_nothing() {
    let mut s = mounted_status();
    let before = s.clone();
    let r = build_outcome(&mut s, false, &lines(&["partial"]), &lines(&["boom"]));
    assert!(r.is_err());
    assert_eq!(s, before);
    let r2 = run_outcome(&mut s, false, &Vec::new(), &Vec::new());
    assert!(r2.is_err());
    assert_eq!(s, before);
}
