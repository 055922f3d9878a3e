use tulip::codec::{decode_status, encode_bool, encode_status, encode_str, encode_u64};
use tulip::status::{Status, StudentConfig};

fn rich_status() -> Status {
    Status {
        mount: Some(String::from("/mnt")),
        built: true,
        graded: Some(17),
        comment: Some(String::from("good work")),
        in_progress: Some(StudentConfig {
            student_id: String::from("s42"),
            build_shell: String::from("build.sh"),
            run_shell: String::from("run.sh"),
            notification: String::from("please read"),
            report: Some(String::from("report.pdf")),
        }),
        submitted: false,
        image: true,
        mark: true,
        stdout: Some(String::from("a\nb\n")),
        stderr: Some(String::from("")),
        build_stdout: None,
        build_stderr: Some(String::from("warning: x")),
    }
}

#[test]
fn primitives_render_canonically() {
    assert_eq!(encode_bool(false), "0");
    assert_eq!(encode_bool(true), "1");
    assert_eq!(encode_u64(0), "0000000000000000");
    assert_eq!(encode_u64(2), "0000000000000002");
    assert_eq!(encode_u64(0xdeadbeef), "00000000deadbeef");
    assert_eq!(encode_u64(u64::MAX), "ffffffffffffffff");
    assert_eq!(encode_str("ab"), "0000000000000002ab");
    assert_eq!(encode_str(""), "0000000000000000");
}

#[test]
fn default_record_encodes_to_twelve_tags() {
    let encoded = encode_status(&Status::default());
    assert_eq!(encoded, "000000000000");
}

#[test]
fn encoded_record_reloads_as_itself() {
    let status = rich_status();
    let stored = encode_status(&status);
    let reloaded = decode_status(stored.as_str()).unwrap();
    assert_eq!(reloaded, status);
}

#[test]
fn reload_and_repersist_is_identical() {
    for status in [Status::default(), rich_status()] {
        let stored = encode_status(&status);
        let reloaded = decode_status(stored.as_str()).unwrap();
        let stored_again = encode_status(&reloaded);
        assert_eq!(stored_again, stored);
    }
}

#[test]
fn non_ascii_text_survives_the_round_trip() {
    let mut status = Status::default();
    status.comment = Some(String::from("héllo ☃ line\nnext"));
    let stored = encode_status(&status);
    let reloaded = decode_status(stored.as_str()).unwrap();
    assert_eq!(reloaded, status);
    assert_eq!(encode_status(&reloaded), stored);
}

#[test]
fn corrupt_or_truncated_records_are_rejected()  {
    assert_eq!(decode_status(""), None);
    assert_eq!(decode_status("zz"), None);
    assert_eq!(decode_status("00000000000"), None);
    assert_eq!(decode_status("0000000000000"), None);
    assert_eq!(decode_status("000000000000x"), None);
    assert_eq!(decode_status("1"), None);
    let mut stored = encode_status(&rich_status());
    stored.push('!');
    assert_eq!(decode_status(stored.as_str()), None);
}
