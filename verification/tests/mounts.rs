use tulip::mount::{
    mkdir_command, overlay_init_command, plan_attach, plan_attaches, remove_tree_command,
    sync_data_command, umount_command,
};
use tulip::policy::{BindKind, Binding};

fn binding(kind: BindKind) -> Binding {
    Binding {
        source: String::from("tools"),
        target: String::from("/opt/tools"),
        kind,
    }
}

#[test]
fn overlay_init_with_all_options() {
    let args = overlay_init_command(
        "/usr/bin/nutshell",
        "/mnt",
        "/w/data",
        "/w/image/root.x86_64",
        Some(64),
        true,
        false,
    );
    assert_eq!(
        args,
        vec![
            "/usr/bin/nutshell",
            "init-overlay",
            "-m",
            "/mnt",
            "-d",
            "/w/data",
            "-b",
            "/w/image/root.x86_64",
            "-t",
            "64m",
            "-s",
        ]
    );
}

#[test]
fn overlay_init_minimal() {
    let args = overlay_init_command("nutshell", "/mnt", "/w/data", "/w/image", None, false, true);
    assert_eq!(
        args,
        vec!["nutshell", "init-overlay", "-m", "/mnt", "-d", "/w/data", "-b", "/w/image", "-p"]
    );
}

#[test]
fn bind_mount_plans() {
    let rw = plan_attach(&binding(BindKind::BindRw), "/w/image/tools", "/mnt", "/w/data");
    assert_eq!(rw.target, "/mnt/opt/tools");
    assert_eq!(rw.mount_args, vec!["mount", "--bind", "/w/image/tools", "/mnt/opt/tools"]);
    assert!(rw.aux_dirs.is_empty());

    let ro = plan_attach(&binding(BindKind::BindRo), "/w/image/tools", "/mnt", "/w/data");
    assert_eq!(
        ro.mount_args,
        vec!["mount", "--bind", "-o", "ro", "/w/image/tools", "/mnt/opt/tools"]
    );
    assert!(ro.aux_dirs.is_empty());
}

#[test]
fn read_only_overlay_allocates_nothing() {
    let plan = plan_attach(&binding(BindKind::OverlayRo), "/w/image/tools", "/mnt", "/w/data");
    assert!(plan.aux_dirs.is_empty());
    assert_eq!(
        plan.mount_args,
        vec![
            "mount",
            "-t",
            "overlay",
            "overlay",
            "-o",
            "lowerdir=/w/image/tools",
            "/mnt/opt/tools",
        ]
    );
}

#[test]
fn writable_overlay_allocates_two_fresh_directories() {
    let plan = plan_attach(&binding(BindKind::OverlayRw), "/w/image/tools", "/mnt", "/w/data");
    assert_eq!(plan.aux_dirs.len(), 2);
    for dir in &plan.aux_dirs {
        assert!(dir.starts_with("/w/data/"));
        assert_eq!(dir.len(), "/w/data/".len() + 36);
    }
    assert_eq!(plan.mount_args.len(), 7);
    assert_eq!(plan.mount_args[0], "mount");
    assert_eq!(plan.mount_args[4], "-o");
    let options = &plan.mount_args[5];
    let expected = format!(
        "workdir={},upperdir={},lowerdir=/w/image/tools",
        plan.aux_dirs[0], plan.aux_dirs[1]
    );
    assert_eq!(options, &expected);
    assert_eq!(plan.mount_args[6], "/mnt/opt/tools");
}

#[test]
fn fresh_overlay_directories_differ_between_plans() {
    let a = plan_attach(&binding(BindKind::OverlayRw), "/w/image/tools", "/mnt", "/w/data");
    let b = plan_attach(&binding(BindKind::OverlayRw), "/w/image/tools", "/mnt", "/w/data");
    assert_ne!(a.aux_dirs[0], b.aux_dirs[0]);
    assert_ne!(a.aux_dirs[1], b.aux_dirs[1]);
}

#[test]
fn plan_attaches_reports_the_first_unresolved_source() {
    let bindings = vec![binding(BindKind::BindRw), binding(BindKind::OverlayRo)];
    let sources = vec![None, Some(String::from("/w/image/tools"))];
    let err = plan_attaches(&bindings, &sources, "/mnt", "/w/data").unwrap_err();
    assert_eq!(err.index, 0);

    let good = vec![Some(String::from("/a")), Some(String::from("/b"))];
    let plans = plan_attaches(&bindings, &good, "/mnt", "/w/data").unwrap();
    assert_eq!(plans.len(), 2);
    assert!(plans[1].aux_dirs.is_empty());
}

#[test]
fn teardown_and_setup_commands() {
    assert_eq!(umount_command("/mnt"), vec!["umount", "-R", "/mnt"]);
    assert_eq!(remove_tree_command("/w/data"), vec!["rm", "-rf", "/w/data"]);
    assert_eq!(mkdir_command("/mnt/opt/tools"), vec!["mkdir", "-p", "/mnt/opt/tools"]);
    assert_eq!(
        sync_data_command("/w", "/mnt"),
        vec!["rsync", "-r", "/w/student/", "/mnt/data"]
    );
}
