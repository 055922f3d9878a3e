//! The namespace-container backend synthesizer: compiles the policy, the
//! extra bindings and the mounted root into the backend's argument list,
//! deterministically. The first element of the list is the backend program
//! itself; the privileged launcher prepends its own invocation.

use vstd::prelude::*;

use crate::flags::{
    append_args, num_flag, num_flag_args, opt_flag, opt_flag_args, opt_value_flag,
    opt_value_flag_args, prefixed_args, prefixed_flag_args, shell_or_default, shell_string,
    PathError,
};
use crate::policy::{BindKind, Binding, EnvPair, Limit, NSpawnConfig, Syscall};
use crate::textfmt::{affinity_list, affinity_string, concat_strs, views};

verus! {

/// The affinity flag `--cpu-affinity=0,1,...,n-1`, present when a core count
/// is set.
pub open spec fn cpu_affinity_flag(cpu: Option<usize>) -> Seq<Seq<char>> {
    match cpu {
        None => Seq::empty(),
        Some(n) => seq!["--cpu-affinity="@ + affinity_list(n as nat)],
    }
}

/// The resource-limit flags of the namespace-container backend, one per set
/// ceiling.
pub open spec fn nspawn_limit_args(limit: Option<Limit>) -> Seq<Seq<char>> {
    match limit {
        None => Seq::empty(),
        Some(l) => cpu_affinity_flag(l.cpu_nums) + num_flag("--rlimit=FSIZE="@, l.filesize_limit)
            + num_flag("--rlimit=NPROC="@, l.process_limit) + num_flag(
            "--rlimit=NOFILE="@,
            l.nofile_limit,
        ) + num_flag("--rlimit=SIGPENDING="@, l.sigpending_limit) + num_flag(
            "--rlimit=AS="@,
            l.mem_limit,
        ),
    }
}

/// Renders the resource-limit flags.
fn nspawn_limit_flag_args(limit: &Option<Limit>) -> (r: Vec<String>)
    ensures
        views(r@) == nspawn_limit_args(*limit),
{
    let mut r: Vec<String> = Vec::new();
    match limit {
        None => {},
        Some(l) => {
            match &l.cpu_nums {
                None => {},
                Some(n) => {
                    let list = affinity_string(*n);
                    r.push(concat_strs("--cpu-affinity=", list.as_str()));
                },
            }
            proof {
                assert(views(r@) =~= cpu_affinity_flag(l.cpu_nums));
            }
            append_args(&mut r, num_flag_args("--rlimit=FSIZE=", &l.filesize_limit));
            append_args(&mut r, num_flag_args("--rlimit=NPROC=", &l.process_limit));
            append_args(&mut r, num_flag_args("--rlimit=NOFILE=", &l.nofile_limit));
            append_args(&mut r, num_flag_args("--rlimit=SIGPENDING=", &l.sigpending_limit));
            append_args(&mut r, num_flag_args("--rlimit=AS=", &l.mem_limit));
        },
    }
    r
}

/// One `--setenv=name=value` flag per environment pair, in order.
pub open spec fn setenv_args(env: Seq<EnvPair>) -> Seq<Seq<char>>
    decreases env.len(),
{
    if env.len() == 0 {
        Seq::empty()
    } else {
        setenv_args(env.drop_last()).push(
            "--setenv="@ + env.last().name@ + "="@ + env.last().value@,
        )
    }
}

/// Renders the environment flags.
fn setenv_flag_args(env: &Vec<EnvPair>) -> (r: Vec<String>)
    ensures
        views(r@) == setenv_args(env@),
{
    let mut r: Vec<String> = Vec::new();
    let mut i: usize = 0;
    while i < env.len()
        invariant
            i <= env.len(),
            views(r@) == setenv_args(env@.take(i as int)),
        decreases env.len() - i,
    {
        let mut s = String::from_str("--setenv=");
        s.append(env[i].name.as_str());
        s.append("=");
        s.append(env[i].value.as_str());
        r.push(s);
        proof {
            assert(env@.take(i + 1).drop_last() =~= env@.take(i as int));
            assert(views(r@) =~= setenv_args(env@.take(i + 1)));
        }
        i = i + 1;
    }
    proof {
        assert(env@.take(env@.len() as int) =~= env@);
    }
    r
}

/// The flag prefix that attaches one binding under this backend.
pub open spec fn binding_flag(kind: BindKind) -> Seq<char> {
    match kind {
        BindKind::BindRw => "--bind="@,
        BindKind::BindRo => "--bind-ro="@,
        BindKind::OverlayRw => "--overlay="@,
        BindKind::OverlayRo => "--overlay-ro="@,
    }
}

fn binding_flag_str(kind: BindKind) -> (r: &'static str)
    ensures
        r@ == binding_flag(kind),
{
    match kind {
        BindKind::BindRw => "--bind=",
        BindKind::BindRo => "--bind-ro=",
        BindKind::OverlayRw => "--overlay=",
        BindKind::OverlayRo => "--overlay-ro=",
    }
}

/// The canonicalized sources of the bindings, meaningful once every source
/// resolved.
pub open spec fn resolved_views(sources: Seq<Option<String>>) -> Seq<Seq<char>> {
    sources.map_values(|o: Option<String>| o.unwrap()@)
}

/// One `<flag><canonical source>:<target>` argument per extra binding, in
/// policy order.
pub open spec fn nspawn_binding_args(bindings: Seq<Binding>, sources: Seq<Seq<char>>) -> Seq<
    Seq<char>,
>
    decreases bindings.len(),
{
    if bindings.len() == 0 {
        Seq::empty()
    } else {
        nspawn_binding_args(bindings.drop_last(), sources.drop_last()).push(
            binding_flag(bindings.last().kind) + sources.last() + ":"@ + bindings.last().target@,
        )
    }
}

/// Renders the binding flags, or reports the first binding whose source
/// failed canonicalization.
fn nspawn_binding_flag_args(bindings: &Vec<Binding>, sources: &Vec<Option<String>>) -> (r: Result<
    Vec<String>,
    PathError,
>)
    requires
        bindings@.len() == sources@.len(),
    ensures
        r matches Ok(args) ==> (forall|i: int|
            0 <= i < sources@.len() ==> sources@[i].is_some()) && views(args@)
            == nspawn_binding_args(bindings@, resolved_views(sources@)),
        r matches Err(e) ==> e.index < sources@.len() && sources@[e.index as int].is_none() && (
        forall|j: int| 0 <= j < e.index ==> sources@[j].is_some()),
{
    let mut r: Vec<String> = Vec::new();
    let mut i: usize = 0;
    while i < bindings.len()
        invariant
            i <= bindings.len(),
            bindings@.len() == sources@.len(),
            forall|j: int| 0 <= j < i ==> sources@[j].is_some(),
            views(r@) == nspawn_binding_args(
                bindings@.take(i as int),
                resolved_views(sources@).take(i as int),
            ),
        decreases bindings.len() - i,
    {
        match &sources[i] {
            None => {
                return Err(PathError { index: i });
            },
            Some(src) => {
                let mut s = String::from_str(binding_flag_str(bindings[i].kind));
                s.append(src.as_str());
                s.append(":");
                s.append(bindings[i].target.as_str());
                r.push(s);
            },
        }
        proof {
            let rv = resolved_views(sources@);
            assert(bindings@.take(i + 1).drop_last() =~= bindings@.take(i as int));
            assert(rv.take(i + 1).drop_last() =~= rv.take(i as int));
            assert(views(r@) =~= nspawn_binding_args(bindings@.take(i + 1), rv.take(i + 1)));
        }
        i = i + 1;
    }
    proof {
        assert(bindings@.take(bindings@.len() as int) =~= bindings@);
        assert(resolved_views(sources@).take(bindings@.len() as int) =~= resolved_views(sources@));
    }
    Ok(r)
}

/// One `--system-call-filter=` flag per syscall entry: the bare name when
/// permitted, the name prefixed `~` when denied.
pub open spec fn syscall_filter_args(s: Seq<Syscall>) -> Seq<Seq<char>>
    decreases s.len(),
{
    if s.len() == 0 {
        Seq::empty()
    } else {
        syscall_filter_args(s.drop_last()).push(
            if s.last().permit {
                "--system-call-filter="@ + s.last().name@
            } else {
                "--system-call-filter=~"@ + s.last().name@
            },
        )
    }
}

/// Renders the syscall-filter flags.
fn syscall_filter_flag_args(s: &Vec<Syscall>) -> (r: Vec<String>)
    ensures
        views(r@) == syscall_filter_args(s@),
{
    let mut r: Vec<String> = Vec::new();
    let mut i: usize = 0;
    while i < s.len()
        invariant
            i <= s.len(),
            views(r@) == syscall_filter_args(s@.take(i as int)),
        decreases s.len() - i,
    {
        if s[i].permit {
            r.push(concat_strs("--system-call-filter=", s[i].name.as_str()));
        } else {
            r.push(concat_strs("--system-call-filter=~", s[i].name.as_str()));
        }
        proof {
            assert(s@.take(i + 1).drop_last() =~= s@.take(i as int));
            assert(views(r@) =~= syscall_filter_args(s@.take(i + 1)));
        }
        i = i + 1;
    }
    proof {
        assert(s@.take(s@.len() as int) =~= s@);
    }
    r
}

/// The full argument list of one namespace-container invocation: network
/// isolation or a read-only bind of the host DNS configuration, the 1:1
/// boolean flags, the resource limits, working directory, environment,
/// capability changes, extra bindings, syscall filters, and finally the
/// mounted root and the script run under the resolved shell.
pub open spec fn nspawn_args(
    c: NSpawnConfig,
    bindings: Seq<Binding>,
    sources: Seq<Seq<char>>,
    mount: Seq<char>,
    script: Seq<char>,
) -> Seq<Seq<char>> {
    seq!["systemd-nspawn"@] + (if c.no_network {
        seq!["--private-network"@]
    } else {
        seq!["--bind-ro=/etc/resolv.conf"@]
    }) + opt_flag(c.pid2, "--as-pid2"@) + opt_flag(c.no_new_privileges, "--no-new-privileges"@)
        + nspawn_limit_args(c.limit) + opt_value_flag("--chdir="@, c.work_path) + setenv_args(
        c.env@,
    ) + prefixed_args("--capacity="@, c.capacity@) + prefixed_args(
        "--drop-capacity="@,
        c.capacity_drop@,
    ) + nspawn_binding_args(bindings, sources) + syscall_filter_args(c.syscall@) + seq![
        "--quiet"@,
        "-D"@,
        mount,
        shell_or_default(c.shell),
        "/data/"@ + script,
    ]
}

/// Compiles the namespace-container policy into one backend invocation.
///
/// `sources` holds, for each extra binding, its source canonicalized against
/// the working directory, or `None` where canonicalization failed; the first
/// unresolvable binding is fatal and nothing is returned to spawn.
pub fn nspawn_command(
    c: &NSpawnConfig,
    bindings: &Vec<Binding>,
    sources: &Vec<Option<String>>,
    mount: &str,
    script: &str,
) -> (r: Result<Vec<String>, PathError>)
    requires
        bindings@.len() == sources@.len(),
    ensures
        r matches Ok(args) ==> (forall|i: int|
            0 <= i < sources@.len() ==> sources@[i].is_some()) && views(args@) == nspawn_args(
            *c,
            bindings@,
            resolved_views(sources@),
            mount@,
            script@,
        ),
        r matches Err(e) ==> e.index < sources@.len() && sources@[e.index as int].is_none() && (
        forall|j: int| 0 <= j < e.index ==> sources@[j].is_some()),
{
    let binding_args = match nspawn_binding_flag_args(bindings, sources) {
        Ok(args) => args,
        Err(e) => {
            return Err(e);
        },
    };
    let mut args: Vec<String> = Vec::new();
    args.push(String::from_str("systemd-nspawn"));
    proof {
        assert(views(args@) =~= seq!["systemd-nspawn"@]);
    }
    if c.no_network {
        append_args(&mut args, opt_flag_args(true, "--private-network"));
    } else {
        append_args(&mut args, opt_flag_args(true, "--bind-ro=/etc/resolv.conf"));
    }
    proof {
        assert(opt_flag(true, "--private-network"@) =~= seq!["--private-network"@]);
        assert(opt_flag(true, "--bind-ro=/etc/resolv.conf"@) =~= seq!["--bind-ro=/etc/resolv.conf"@]);
    }
    append_args(&mut args, opt_flag_args(c.pid2, "--as-pid2"));
    append_args(&mut args, opt_flag_args(c.no_new_privileges, "--no-new-privileges"));
    append_args(&mut args, nspawn_limit_flag_args(&c.limit));
    append_args(&mut args, opt_value_flag_args("--chdir=", &c.work_path));
    append_args(&mut args, setenv_flag_args(&c.env));
    append_args(&mut args, prefixed_flag_args("--capacity=", &c.capacity));
    append_args(&mut args, prefixed_flag_args("--drop-capacity=", &c.capacity_drop));
    append_args(&mut args, binding_args);
    append_args(&mut args, syscall_filter_flag_args(&c.syscall));
    let mut tail: Vec<String> = Vec::new();
    tail.push(String::from_str("--quiet"));
    tail.push(String::from_str("-D"));
    tail.push(String::from_str(mount));
    tail.push(shell_string(&c.shell));
    tail.push(concat_strs("/data/", script));
    proof {
        assert(views(tail@) =~= seq![
            "--quiet"@,
            "-D"@,
            mount@,
            shell_or_default(c.shell),
            "/data/"@ + script@,
        ]);
    }
    append_args(&mut args, tail);
    proof {
        assert(views(args@) == nspawn_args(
            *c,
            bindings@,
            resolved_views(sources@),
            mount@,
            script@,
        ));
    }
    Ok(args)
}

} // verus!
