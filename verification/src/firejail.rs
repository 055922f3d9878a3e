//! The jail backend synthesizer: compiles the policy into the unprivileged
//! launcher's argument list, deterministically. Syscall allow and deny lists
//! become two separate flags, never merged, and an empty list suppresses its
//! flag entirely rather than emitting it with an empty value.

use vstd::prelude::*;
use vstd::seq_lib::*;

use crate::flags::{
    append_args, deny_names, filter_names, joined_flag, joined_flag_args, num_flag, num_flag_args,
    opt_flag, opt_flag_args, opt_value_flag, opt_value_flag_args, permit_names, shell_or_default,
    shell_string,
};
use crate::policy::{Binding, FirejailConfig, Limit, Syscall, Timeout};
use crate::textfmt::{
    affinity_list, affinity_string, concat_strs, dec, dec_string, join_path, path_under, views,
};

verus! {

/// The resource-limit flags of the jail backend, one per set ceiling.
pub open spec fn firejail_limit_args(limit: Option<Limit>) -> Seq<Seq<char>> {
    match limit {
        None => Seq::empty(),
        Some(l) => (match l.cpu_nums {
            None => Seq::empty(),
            Some(n) => seq!["--cpu="@ + affinity_list(n as nat)],
        }) + num_flag("--rlimit-fsize="@, l.filesize_limit) + num_flag(
            "--rlimit-nproc="@,
            l.process_limit,
        ) + num_flag("--rlimit-nofile="@, l.nofile_limit) + num_flag(
            "--rlimit-sigpending="@,
            l.sigpending_limit,
        ) + num_flag("--rlimit-as="@, l.mem_limit),
    }
}

/// Renders the resource-limit flags.
fn firejail_limit_flag_args(limit: &Option<Limit>) -> (r: Vec<String>)
    ensures
        views(r@) == firejail_limit_args(*limit),
{
    let mut r: Vec<String> = Vec::new();
    match limit {
        None => {},
        Some(l) => {
            match &l.cpu_nums {
                None => {},
                Some(n) => {
                    let list = affinity_string(*n);
                    r.push(concat_strs("--cpu=", list.as_str()));
                },
            }
            proof {
                assert(views(r@) =~= (match l.cpu_nums {
                    None => Seq::<Seq<char>>::empty(),
                    Some(n) => seq!["--cpu="@ + affinity_list(n as nat)],
                }));
            }
            append_args(&mut r, num_flag_args("--rlimit-fsize=", &l.filesize_limit));
            append_args(&mut r, num_flag_args("--rlimit-nproc=", &l.process_limit));
            append_args(&mut r, num_flag_args("--rlimit-nofile=", &l.nofile_limit));
            append_args(&mut r, num_flag_args("--rlimit-sigpending=", &l.sigpending_limit));
            append_args(&mut r, num_flag_args("--rlimit-as=", &l.mem_limit));
        },
    }
    r
}

/// The `--timeout=H:M:S` flag, present when a timeout is set.
pub open spec fn timeout_flag(t: Option<Timeout>) -> Seq<Seq<char>> {
    match t {
        None => Seq::empty(),
        Some(t) => seq![
            "--timeout="@ + dec(t.hour as nat) + ":"@ + dec(t.minute as nat) + ":"@ + dec(
                t.second as nat,
            ),
        ],
    }
}

/// Renders the timeout flag.
fn timeout_flag_args(t: &Option<Timeout>) -> (r: Vec<String>)
    ensures
        views(r@) == timeout_flag(*t),
{
    let mut r: Vec<String> = Vec::new();
    match t {
        None => {},
        Some(t) => {
            let mut s = String::from_str("--timeout=");
            let h = dec_string(t.hour as usize);
            let m = dec_string(t.minute as usize);
            let sec = dec_string(t.second as usize);
            s.append(h.as_str());
            s.append(":");
            s.append(m.as_str());
            s.append(":");
            s.append(sec.as_str());
            r.push(s);
        },
    }
    proof {
        assert(views(r@) =~= timeout_flag(*t));
    }
    r
}

/// The `--profile=` flag for an external profile file, resolved under the
/// working directory.
pub open spec fn profile_flag(workdir: Seq<char>, p: Option<String>) -> Seq<Seq<char>> {
    match p {
        None => Seq::empty(),
        Some(f) => seq!["--profile="@ + path_under(workdir, f@)],
    }
}

/// Renders the profile flag.
fn profile_flag_args(workdir: &str, p: &Option<String>) -> (r: Vec<String>)
    ensures
        views(r@) == profile_flag(workdir@, *p),
{
    let mut r: Vec<String> = Vec::new();
    match p {
        None => {},
        Some(f) => {
            let path = join_path(workdir, f.as_str());
            r.push(concat_strs("--profile=", path.as_str()));
        },
    }
    proof {
        assert(views(r@) =~= profile_flag(workdir@, *p));
    }
    r
}

/// One `--dns=` flag per configured resolver, in order.
pub open spec fn dns_args(dns: Option<Vec<String>>) -> Seq<Seq<char>> {
    match dns {
        None => Seq::empty(),
        Some(v) => crate::flags::prefixed_args("--dns="@, v@),
    }
}

/// Renders the DNS flags.
fn dns_flag_args(dns: &Option<Vec<String>>) -> (r: Vec<String>)
    ensures
        views(r@) == dns_args(*dns),
{
    match dns {
        None => {
            let r: Vec<String> = Vec::new();
            proof {
                assert(views(r@) =~= dns_args(*dns));
            }
            r
        },
        Some(v) => crate::flags::prefixed_flag_args("--dns=", v),
    }
}

/// The two syscall-filter flags: denied names behind `--seccomp.block=`,
/// permitted names behind `--seccomp=`, each suppressed when its joined list
/// is empty, never merged into one flag.
pub open spec fn seccomp_args(s: Seq<Syscall>) -> Seq<Seq<char>> {
    joined_flag("--seccomp.block="@, deny_names(s)) + joined_flag("--seccomp="@, permit_names(s))
}

/// Renders the syscall-filter flags.
fn seccomp_flag_args(s: &Vec<Syscall>) -> (r: Vec<String>)
    ensures
        views(r@) == seccomp_args(s@),
{
    let deny = filter_names(s, false);
    let permit = filter_names(s, true);
    let mut r = joined_flag_args("--seccomp.block=", &deny);
    append_args(&mut r, joined_flag_args("--seccomp=", &permit));
    r
}

/// One `--whitelist=` flag per extra binding target, placed under the mounted
/// root: extra bindings stay visible even under an otherwise-restrictive
/// jail.
pub open spec fn whitelist_args(bindings: Seq<Binding>, mount: Seq<char>) -> Seq<Seq<char>>
    decreases bindings.len(),
{
    if bindings.len() == 0 {
        Seq::empty()
    } else {
        whitelist_args(bindings.drop_last(), mount).push(
            "--whitelist="@ + path_under(mount, bindings.last().target@),
        )
    }
}

/// Renders the whitelist flags of the extra bindings.
fn whitelist_flag_args(bindings: &Vec<Binding>, mount: &str) -> (r: Vec<String>)
    ensures
        views(r@) == whitelist_args(bindings@, mount@),
{
    let mut r: Vec<String> = Vec::new();
    let mut i: usize = 0;
    while i < bindings.len()
        invariant
            i <= bindings.len(),
            views(r@) == whitelist_args(bindings@.take(i as int), mount@),
        decreases bindings.len() - i,
    {
        let path = join_path(mount, bindings[i].target.as_str());
        r.push(concat_strs("--whitelist=", path.as_str()));
        proof {
            assert(bindings@.take(i + 1).drop_last() =~= bindings@.take(i as int));
            assert(views(r@) =~= whitelist_args(bindings@.take(i + 1), mount@));
        }
        i = i + 1;
    }
    proof {
        assert(bindings@.take(bindings@.len() as int) =~= bindings@);
    }
    r
}

/// The device and privilege toggle flags, one per enabled toggle, and
/// `--net=none` when the network is disabled.
pub open spec fn toggle_args(c: FirejailConfig) -> Seq<Seq<char>> {
    opt_flag(c.function.no3d, "--no3d"@) + opt_flag(c.function.noautopulse, "--noautopulse"@)
        + opt_flag(c.function.nodbus, "--nodbus"@) + opt_flag(c.function.nodvd, "--nodvd"@)
        + opt_flag(c.function.nogroups, "--nogroups"@) + opt_flag(
        c.function.nonewprivs,
        "--nonewprivs"@,
    ) + opt_flag(c.function.nou2f, "--nou2f"@) + opt_flag(c.function.novideo, "--novideo"@)
        + opt_flag(c.function.nonet, "--net=none"@)
}

/// Renders the toggle flags.
fn toggle_flag_args(c: &FirejailConfig) -> (r: Vec<String>)
    ensures
        views(r@) == toggle_args(*c),
{
    let mut r = opt_flag_args(c.function.no3d, "--no3d");
    append_args(&mut r, opt_flag_args(c.function.noautopulse, "--noautopulse"));
    append_args(&mut r, opt_flag_args(c.function.nodbus, "--nodbus"));
    append_args(&mut r, opt_flag_args(c.function.nodvd, "--nodvd"));
    append_args(&mut r, opt_flag_args(c.function.nogroups, "--nogroups"));
    append_args(&mut r, opt_flag_args(c.function.nonewprivs, "--nonewprivs"));
    append_args(&mut r, opt_flag_args(c.function.nou2f, "--nou2f"));
    append_args(&mut r, opt_flag_args(c.function.novideo, "--novideo"));
    append_args(&mut r, opt_flag_args(c.function.nonet, "--net=none"));
    r
}

/// The full argument list of one jail invocation: the chroot onto the mounted
/// root, the resolved shell, resource limits, timeout, profile, MAC profile,
/// DNS overrides, niceness, the two syscall-filter flags, capability keep and
/// drop lists, the device toggles, one whitelist per extra binding target,
/// the mandatory whitelist of the student's own data directory, and finally
/// the script run under the resolved shell.
pub open spec fn firejail_args(
    c: FirejailConfig,
    bindings: Seq<Binding>,
    mount: Seq<char>,
    workdir: Seq<char>,
    script: Seq<char>,
) -> Seq<Seq<char>> {
    seq!["firejail"@, "--quiet"@, "--deterministic-exit-code"@, "--chroot="@ + mount] + opt_flag(
        c.nodefault,
        "--noprofile"@,
    ) + seq!["--shell="@ + shell_or_default(c.shell)] + firejail_limit_args(c.limit)
        + timeout_flag(c.timeout) + profile_flag(workdir, c.with_profile) + opt_value_flag(
        "--mac="@,
        c.mac,
    ) + dns_args(c.dns) + num_flag("--nice="@, c.nice) + seccomp_args(c.syscall@) + joined_flag(
        "--caps.keep="@,
        views(c.capacity@),
    ) + joined_flag("--caps.drop="@, views(c.capacity_drop@)) + toggle_args(c) + whitelist_args(
        bindings,
        mount,
    ) + seq![
        "--whitelist="@ + path_under(mount, "data"@),
        shell_or_default(c.shell),
        "/data/"@ + script,
    ]
}

/// Compiles the jail policy into one backend invocation against the mounted
/// root and the given script.
pub fn firejail_command(
    c: &FirejailConfig,
    bindings: &Vec<Binding>,
    mount: &str,
    workdir: &str,
    script: &str,
) -> (r: Vec<String>)
    ensures
        views(r@) == firejail_args(*c, bindings@, mount@, workdir@, script@),
{
    let mut args: Vec<String> = Vec::new();
    args.push(String::from_str("firejail"));
    args.push(String::from_str("--quiet"));
    args.push(String::from_str("--deterministic-exit-code"));
    args.push(concat_strs("--chroot=", mount));
    proof {
        assert(views(args@) =~= seq![
            "firejail"@,
            "--quiet"@,
            "--deterministic-exit-code"@,
            "--chroot="@ + mount@,
        ]);
    }
    append_args(&mut args, opt_flag_args(c.nodefault, "--noprofile"));
    let mut shell_flag: Vec<String> = Vec::new();
    let shell = shell_string(&c.shell);
    shell_flag.push(concat_strs("--shell=", shell.as_str()));
    proof {
        assert(views(shell_flag@) =~= seq!["--shell="@ + shell_or_default(c.shell)]);
    }
    append_args(&mut args, shell_flag);
    append_args(&mut args, firejail_limit_flag_args(&c.limit));
    append_args(&mut args, timeout_flag_args(&c.timeout));
    append_args(&mut args, profile_flag_args(workdir, &c.with_profile));
    append_args(&mut args, opt_value_flag_args("--mac=", &c.mac));
    append_args(&mut args, dns_flag_args(&c.dns));
    append_args(&mut args, num_flag_args("--nice=", &c.nice));
    append_args(&mut args, seccomp_flag_args(&c.syscall));
    append_args(&mut args, joined_flag_args("--caps.keep=", &c.capacity));
    append_args(&mut args, joined_flag_args("--caps.drop=", &c.capacity_drop));
    append_args(&mut args, toggle_flag_args(c));
    append_args(&mut args, whitelist_flag_args(bindings, mount));
    let mut tail: Vec<String> = Vec::new();
    let data_path = join_path(mount, "data");
    tail.push(concat_strs("--whitelist=", data_path.as_str()));
    tail.push(shell);
    tail.push(concat_strs("/data/", script));
    proof {
        assert(views(tail@) =~= seq![
            "--whitelist="@ + path_under(mount@, "data"@),
            shell_or_default(c.shell),
            "/data/"@ + script@,
        ]);
    }
    append_args(&mut args, tail);
    proof {
        assert(views(args@) == firejail_args(*c, bindings@, mount@, workdir@, script@));
    }
    args
}

/// With no permitted syscall in the policy there is no name to permit, so
/// the permit list is empty.
pub proof fn lemma_permit_names_empty(s: Seq<Syscall>)
    requires
        forall|i: int| 0 <= i < s.len() ==> !s[i].permit,
    ensures
        permit_names(s) == Seq::<Seq<char>>::empty(),
    decreases s.len(),
{
    if s.len() > 0 {
        lemma_permit_names_empty(s.drop_last());
        assert(permit_names(s) =~= Seq::<Seq<char>>::empty());
    }
}

/// An empty permit list suppresses `--seccomp=` entirely: when no syscall is
/// permitted, the filter flags reduce to the deny flag alone, and no emitted
/// filter flag even starts with `--seccomp=`.
pub proof fn lemma_empty_permit_suppresses_seccomp(s: Seq<Syscall>)
    requires
        forall|i: int| 0 <= i < s.len() ==> !s[i].permit,
    ensures
        seccomp_args(s) == joined_flag("--seccomp.block="@, deny_names(s)),
        forall|j: int|
            0 <= j < seccomp_args(s).len() ==> !("--seccomp="@.is_prefix_of(seccomp_args(s)[j])),
{
    lemma_permit_names_empty(s);
    assert(crate::textfmt::comma_join(permit_names(s)).len() == 0);
    assert(seccomp_args(s) =~= joined_flag("--seccomp.block="@, deny_names(s)));
    let block = joined_flag("--seccomp.block="@, deny_names(s));
    assert forall|j: int| 0 <= j < block.len() implies !("--seccomp="@.is_prefix_of(
        block[j],
    )) by {
        reveal_strlit("--seccomp=");
        reveal_strlit("--seccomp.block=");
        let arg = block[j];
        assert(arg == "--seccomp.block="@ + crate::textfmt::comma_join(deny_names(s)));
        assert(arg[9] == '.');
        if "--seccomp="@.is_prefix_of(arg) {
            assert("--seccomp="@.len() == 10);
            assert(arg.subrange(0, 10) =~= "--seccomp="@);
            assert(arg.subrange(0, 10)[9] == arg[9]);
            assert("--seccomp="@[9] == '=');
            assert(false);
        }
    }
}

} // verus!
