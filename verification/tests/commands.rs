use tulip::firejail::firejail_command;
use tulip::nspawn::nspawn_command;
use tulip::policy::{
    BindKind, Binding, EnvPair, FirejailConfig, FuntionList, Limit, NSpawnConfig, Syscall, Timeout,
};

fn no_limit() -> Limit {
    Limit {
        mem_limit: None,
        nofile_limit: None,
        filesize_limit: None,
        process_limit: None,
        sigpending_limit: None,
        cpu_nums: None,
    }
}

fn toggles_off() -> FuntionList {
    FuntionList {
        nou2f: false,
        novideo: false,
        no3d: false,
        noautopulse: false,
        nogroups: false,
        nonewprivs: false,
        nodvd: false,
        nodbus: false,
        nonet: false,
    }
}

fn base_nspawn() -> NSpawnConfig {
    NSpawnConfig {
        pid2: false,
        env: Vec::new(),
        work_path: None,
        syscall: Vec::new(),
        capacity: Vec::new(),
        capacity_drop: Vec::new(),
        no_new_privileges: false,
        no_network: false,
        limit: None,
        shell: None,
    }
}

fn base_firejail() -> FirejailConfig {
    FirejailConfig {
        timeout: None,
        syscall: Vec::new(),
        shell: None,
        nice: None,
        function: toggles_off(),
        mac: None,
        dns: None,
        nodefault: false,
        allow_debuggers: false,
        limit: None,
        capacity: Vec::new(),
        capacity_drop: Vec::new(),
        with_profile: None,
        has_x: false,
        env: Vec::new(),
        env_remove: Vec::new(),
        whitelist: Vec::new(),
    }
}

#[test]
fn nspawn_minimal_command() {
    let args = nspawn_command(&base_nspawn(), &Vec::new(), &Vec::new(), "/mnt", "build.sh")
        .unwrap();
    assert_eq!(
        args,
        vec![
            "systemd-nspawn",
            "--bind-ro=/etc/resolv.conf",
            "--quiet",
            "-D",
            "/mnt",
            "/bin/sh",
            "/data/build.sh",
        ]
    );
}

#[test]
fn nspawn_cpu_limit_becomes_affinity_list() {
    let mut c = base_nspawn();
    let mut l = no_limit();
    l.cpu_nums = Some(2);
    c.limit = Some(l);
    let args = nspawn_command(&c, &Vec::new(), &Vec::new(), "/mnt", "build.sh").unwrap();
    assert!(args.contains(&String::from("--cpu-affinity=0,1")));
}

#[test]
fn nspawn_full_command() {
    let c = NSpawnConfig {
        pid2: true,
        env: vec![EnvPair {
            name: String::from("A"),
            value: String::from("B"),
        }],
        work_path: Some(String::from("/w")),
        syscall: vec![
            Syscall {
                name: String::from("io"),
                permit: true,
            },
            Syscall {
                name: String::from("ptrace"),
                permit: false,
            },
        ],
        capacity: vec![String::from("CAP_SYS_ADMIN")],
        capacity_drop: vec![String::from("CAP_NET_RAW")],
        no_new_privileges: true,
        no_network: true,
        limit: Some(Limit {
            mem_limit: Some(7),
            nofile_limit: Some(5),
            filesize_limit: Some(3),
            process_limit: Some(4),
            sigpending_limit: Some(6),
            cpu_nums: Some(3),
        }),
        shell: Some(String::from("/bin/zsh")),
    };
    let bindings = vec![Binding {
        source: String::from("tools"),
        target: String::from("/opt/tools"),
        kind: BindKind::BindRw,
    }];
    let sources = vec![Some(String::from("/real/tools"))];
    let args = nspawn_command(&c, &bindings, &sources, "/mnt", "build.sh").unwrap();
    assert_eq!(
        args,
        vec![
            "systemd-nspawn",
            "--private-network",
            "--as-pid2",
            "--no-new-privileges",
            "--cpu-affinity=0,1,2",
            "--rlimit=FSIZE=3",
            "--rlimit=NPROC=4",
            "--rlimit=NOFILE=5",
            "--rlimit=SIGPENDING=6",
            "--rlimit=AS=7",
            "--chdir=/w",
            "--setenv=A=B",
            "--capacity=CAP_SYS_ADMIN",
            "--drop-capacity=CAP_NET_RAW",
            "--bind=/real/tools:/opt/tools",
            "--system-call-filter=io",
            "--system-call-filter=~ptrace",
            "--quiet",
            "-D",
            "/mnt",
            "/bin/zsh",
            "/data/build.sh",
        ]
    );
}

#[test]
fn nspawn_binding_kinds_pick_their_flags() {
    let kinds = [
        (BindKind::BindRw, "--bind=/s:/t"),
        (BindKind::BindRo, "--bind-ro=/s:/t"),
        (BindKind::OverlayRw, "--overlay=/s:/t"),
        (BindKind::OverlayRo, "--overlay-ro=/s:/t"),
    ];
    for (kind, expected) in kinds {
        let bindings = vec![Binding {
            source: String::from("x"),
            target: String::from("/t"),
            kind,
        }];
        let sources = vec![Some(String::from("/s"))];
        let args = nspawn_command(&base_nspawn(), &bindings, &sources, "/mnt", "b").unwrap();
        assert!(args.contains(&String::from(expected)), "missing {}", expected);
    }
}

#[test]
fn nspawn_unresolved_binding_is_fatal() {
    let bindings = vec![
        Binding {
            source: String::from("a"),
            target: String::from("/a"),
            kind: BindKind::BindRw,
        },
        Binding {
            source: String::from("b"),
            target: String::from("/b"),
            kind: BindKind::BindRw,
        },
    ];
    let sources = vec![Some(String::from("/a")), None];
    let err = nspawn_command(&base_nspawn(), &bindings, &sources, "/mnt", "b").unwrap_err();
    assert_eq!(err.index, 1);
}

#[test]
fn firejail_minimal_command() {
    let args = firejail_command(&base_firejail(), &Vec::new(), "/mnt", "/w", "run.sh");
    assert_eq!(
        args,
        vec![
            "firejail",
            "--quiet",
            "--deterministic-exit-code",
            "--chroot=/mnt",
            "--shell=/bin/sh",
            "--whitelist=/mnt/data",
            "/bin/sh",
            "/data/run.sh",
        ]
    );
}

#[test]
fn firejail_seccomp_flags_stay_separate() {
    let mut c = base_firejail();
    c.syscall = vec![
        Syscall {
            name: String::from("sh"),
            permit: true,
        },
        Syscall {
            name: String::from("ptrace"),
            permit: false,
        },
    ];
    let args = firejail_command(&c, &Vec::new(), "/mnt", "/w", "run.sh");
    let permit_count = args.iter().filter(|a| a.as_str() == "--seccomp=sh").count();
    let block_count = args
        .iter()
        .filter(|a| a.as_str() == "--seccomp.block=ptrace")
        .count();
    assert_eq!(permit_count, 1);
    assert_eq!(block_count, 1);
    assert!(!args.iter().any(|a| a.contains("sh,ptrace") || a.contains("ptrace,sh")));
}

#[test]
fn firejail_empty_permit_list_suppresses_the_flag() {
    let mut c = base_firejail();
    c.syscall = vec![
        Syscall {
            name: String::from("ptrace"),
            permit: false,
        },
        Syscall {
            name: String::from("mount"),
            permit: false,
        },
    ];
    let args = firejail_command(&c, &Vec::new(), "/mnt", "/w", "run.sh");
    assert!(!args.iter().any(|a| a.starts_with("--seccomp=")));
    assert!(args.contains(&String::from("--seccomp.block=ptrace,mount")));
}

#[test]
fn firejail_full_command() {
    let c = FirejailConfig {
        timeout: Some(Timeout {
            hour: 0,
            minute: 10,
            second: 5,
        }),
        syscall: vec![Syscall {
            name: String::from("sh"),
            permit: true,
        }],
        shell: Some(String::from("/bin/bash")),
        nice: Some(4),
        function: FuntionList {
            nou2f: true,
            novideo: false,
            no3d: true,
            noautopulse: false,
            nogroups: true,
            nonewprivs: true,
            nodvd: false,
            nodbus: true,
            nonet: true,
        },
        mac: Some(String::from("strict")),
        dns: Some(vec![String::from("1.1.1.1"), String::from("8.8.8.8")]),
        nodefault: true,
        allow_debuggers: false,
        limit: Some(Limit {
            mem_limit: Some(512),
            nofile_limit: Some(64),
            filesize_limit: Some(1024),
            process_limit: Some(16),
            sigpending_limit: Some(8),
            cpu_nums: Some(2),
        }),
        capacity: vec![String::from("chown")],
        capacity_drop: vec![String::from("net_raw"), String::from("sys_admin")],
        with_profile: Some(String::from("strict.profile")),
        has_x: false,
        env: Vec::new(),
        env_remove: Vec::new(),
        whitelist: Vec::new(),
    };
    let bindings = vec![Binding {
        source: String::from("tools"),
        target: String::from("/opt/tools"),
        kind: BindKind::OverlayRo,
    }];
    let args = firejail_command(&c, &bindings, "/mnt", "/w", "run.sh");
    assert_eq!(
        args,
        vec![
            "firejail",
            "--quiet",
            "--deterministic-exit-code",
            "--chroot=/mnt",
            "--noprofile",
            "--shell=/bin/bash",
            "--cpu=0,1",
            "--rlimit-fsize=1024",
            "--rlimit-nproc=16",
            "--rlimit-nofile=64",
            "--rlimit-sigpending=8",
            "--rlimit-as=512",
            "--timeout=0:10:5",
            "--profile=/w/strict.profile",
            "--mac=strict",
            "--dns=1.1.1.1",
            "--dns=8.8.8.8",
            "--nice=4",
            "--seccomp=sh",
            "--caps.keep=chown",
            "--caps.drop=net_raw,sys_admin",
            "--no3d",
            "--nodbus",
            "--nogroups",
            "--nonewprivs",
            "--nou2f",
            "--net=none",
            "--whitelist=/mnt/opt/tools",
            "--whitelist=/mnt/data",
            "/bin/bash",
            "/data/run.sh",
        ]
    );
}

#[test]
fn firejail_drop_flag_comes_from_the_drop_list() {
    let mut c = base_firejail();
    c.capacity = vec![String::from("keepme")];
    c.capacity_drop = vec![String::from("dropme")];
    let args = firejail_command(&c, &Vec::new(), "/mnt", "/w", "run.sh");
    assert!(args.contains(&String::from("--caps.keep=keepme")));
    assert!(args.contains(&String::from("--caps.drop=dropme")));
    assert!(!args.contains(&String::from("--caps.drop=keepme")));
}

#[test]
fn text_helpers_render_expected_forms() {
    assert_eq!(tulip::textfmt::dec_string(0), "0");
    assert_eq!(tulip::textfmt::dec_string(10), "10");
    assert_eq!(tulip::textfmt::dec_string(90217), "90217");
    assert_eq!(tulip::textfmt::affinity_string(0), "");
    assert_eq!(tulip::textfmt::affinity_string(1), "0");
    assert_eq!(tulip::textfmt::affinity_string(4), "0,1,2,3");
    assert_eq!(tulip::textfmt::join_comma(&Vec::new()), "");
    assert_eq!(
        tulip::textfmt::join_comma(&vec![String::from("a")]),
        "a"
    );
    assert_eq!(
        tulip::textfmt::join_comma(&vec![String::from("a"), String::from("b")]),
        "a,b"
    );
    assert_eq!(tulip::textfmt::join_path("/mnt", "/opt/tools"), "/mnt/opt/tools");
    assert_eq!(tulip::textfmt::join_path("/mnt", "data"), "/mnt/data");
    assert_eq!(tulip::textfmt::join_path("/mnt", ""), "/mnt/");
}
