//! The mount manager: plans the privileged filesystem commands that create
//! and destroy the overlay sandbox root and attach the extra bind/overlay
//! mounts, and tracks the auxiliary directories a writable overlay creates so
//! the caller can delete them later.

use vstd::prelude::*;
use vstd::seq_lib::*;

use crate::flags::{opt_flag, opt_flag_args, PathError};
use crate::policy::{BindKind, Binding};
use crate::textfmt::{concat_strs, dec, dec_string, join_path, path_under, views};

verus! {

/// Relies on `uuid::Uuid::new_v4` and its hyphenated display form: a fresh
/// random identifier rendered as 36 characters. The value is random, so
/// nothing more is assumed of it.
#[verifier::external_body]
fn fresh_name() -> (r: String)
    ensures
        r@.len() == 36,
{
    uuid::Uuid::new_v4().to_string()
}

/// The invocation of the privileged overlay-init helper: mount target, data
/// directory and backing image, an optional tmpfs size in MiB, and the
/// optional shell-after and print-result switches. All three paths are given
/// canonicalized.
pub open spec fn overlay_init_args(
    nutshell: Seq<char>,
    mount: Seq<char>,
    data: Seq<char>,
    image: Seq<char>,
    tmp_size: Option<usize>,
    shell_after: bool,
    print_result: bool,
) -> Seq<Seq<char>> {
    seq![nutshell, "init-overlay"@, "-m"@, mount, "-d"@, data, "-b"@, image] + (match tmp_size {
        None => Seq::empty(),
        Some(n) => seq!["-t"@, dec(n as nat) + "m"@],
    }) + opt_flag(shell_after, "-s"@) + opt_flag(print_result, "-p"@)
}

/// Renders the overlay-init helper invocation.
pub fn overlay_init_command(
    nutshell: &str,
    mount: &str,
    data: &str,
    image: &str,
    tmp_size: Option<usize>,
    shell_after: bool,
    print_result: bool,
) -> (r: Vec<String>)
    ensures
        views(r@) == overlay_init_args(
            nutshell@,
            mount@,
            data@,
            image@,
            tmp_size,
            shell_after,
            print_result,
        ),
{
    let mut args: Vec<String> = Vec::new();
    args.push(String::from_str(nutshell));
    args.push(String::from_str("init-overlay"));
    args.push(String::from_str("-m"));
    args.push(String::from_str(mount));
    args.push(String::from_str("-d"));
    args.push(String::from_str(data));
    args.push(String::from_str("-b"));
    args.push(String::from_str(image));
    proof {
        assert(views(args@) =~= seq![
            nutshell@,
            "init-overlay"@,
            "-m"@,
            mount@,
            "-d"@,
            data@,
            "-b"@,
            image@,
        ]);
    }
    let mut middle: Vec<String> = Vec::new();
    match tmp_size {
        None => {},
        Some(n) => {
            middle.push(String::from_str("-t"));
            let d = dec_string(n);
            middle.push(concat_strs(d.as_str(), "m"));
        },
    }
    proof {
        assert(views(middle@) =~= (match tmp_size {
            None => Seq::<Seq<char>>::empty(),
            Some(n) => seq!["-t"@, dec(n as nat) + "m"@],
        }));
    }
    crate::flags::append_args(&mut args, middle);
    crate::flags::append_args(&mut args, opt_flag_args(shell_after, "-s"));
    crate::flags::append_args(&mut args, opt_flag_args(print_result, "-p"));
    args
}

/// The planned attachment of one extra binding: the target directory to
/// create first, the mount invocation to run, and the auxiliary directories
/// the caller now owns and must delete when the binding is torn down.
#[derive(Debug, Clone, PartialEq)]
pub struct AttachPlan {
    /// The binding target resolved under the mounted root; created with a
    /// privileged recursive mkdir before mounting.
    pub target: String,
    /// The argument list of the privileged mount invocation.
    pub mount_args: Vec<String>,
    /// Fresh upper and work directories for a writable overlay, to create
    /// before mounting and to delete after teardown; empty for every other
    /// binding kind.
    pub aux_dirs: Vec<String>,
}

/// What the plan of one binding promises, given the binding, its
/// canonicalized source, the mounted root and the data directory.
///
/// A plain bind becomes a bind mount, read-only when so tagged. A writable
/// overlay allocates exactly two fresh auxiliary directories under the data
/// directory and mounts with `workdir=`, `upperdir=` and `lowerdir=` set. A
/// read-only overlay allocates no auxiliary directory at all and mounts with
/// only `lowerdir=` set.
pub open spec fn plan_ok(
    plan: AttachPlan,
    binding: Binding,
    source: Seq<char>,
    mount_point: Seq<char>,
    data_dir: Seq<char>,
) -> bool {
    &&& plan.target@ == path_under(mount_point, binding.target@)
    &&& (binding.kind == BindKind::BindRw ==> views(plan.mount_args@) == seq![
        "mount"@,
        "--bind"@,
        source,
        plan.target@,
    ] && plan.aux_dirs@.len() == 0)
    &&& (binding.kind == BindKind::BindRo ==> views(plan.mount_args@) == seq![
        "mount"@,
        "--bind"@,
        "-o"@,
        "ro"@,
        source,
        plan.target@,
    ] && plan.aux_dirs@.len() == 0)
    &&& (binding.kind == BindKind::OverlayRo ==> views(plan.mount_args@) == seq![
        "mount"@,
        "-t"@,
        "overlay"@,
        "overlay"@,
        "-o"@,
        "lowerdir="@ + source,
        plan.target@,
    ] && plan.aux_dirs@.len() == 0)
    &&& (binding.kind == BindKind::OverlayRw ==> plan.aux_dirs@.len() == 2 && views(
        plan.mount_args@,
    ) == seq![
        "mount"@,
        "-t"@,
        "overlay"@,
        "overlay"@,
        "-o"@,
        "workdir="@ + plan.aux_dirs@[0]@ + ",upperdir="@ + plan.aux_dirs@[1]@ + ",lowerdir="@
            + source,
        plan.target@,
    ] && (forall|k: int|
        0 <= k < 2 ==> (data_dir + "/"@).is_prefix_of(#[trigger] plan.aux_dirs@[k]@)
            && plan.aux_dirs@[k]@.len() == data_dir.len() + 37))
}

/// Plans the attachment of one binding whose source has already been
/// canonicalized. Run only after the root exists; the target directory is
/// created before the mount runs.
pub fn plan_attach(binding: &Binding, source: &str, mount_point: &str, data_dir: &str) -> (r:
    AttachPlan)
    ensures
        plan_ok(r, *binding, source@, mount_point@, data_dir@),
{
    let target = join_path(mount_point, binding.target.as_str());
    let mut mount_args: Vec<String> = Vec::new();
    let mut aux_dirs: Vec<String> = Vec::new();
    match binding.kind {
        BindKind::BindRw => {
            mount_args.push(String::from_str("mount"));
            mount_args.push(String::from_str("--bind"));
            mount_args.push(String::from_str(source));
            mount_args.push(target.clone());
            proof {
                assert(views(mount_args@) =~= seq!["mount"@, "--bind"@, source@, target@]);
            }
        },
        BindKind::BindRo => {
            mount_args.push(String::from_str("mount"));
            mount_args.push(String::from_str("--bind"));
            mount_args.push(String::from_str("-o"));
            mount_args.push(String::from_str("ro"));
            mount_args.push(String::from_str(source));
            mount_args.push(target.clone());
            proof {
                assert(views(mount_args@) =~= seq![
                    "mount"@,
                    "--bind"@,
                    "-o"@,
                    "ro"@,
                    source@,
                    target@,
                ]);
            }
        },
        BindKind::OverlayRo => {
            mount_args.push(String::from_str("mount"));
            mount_args.push(String::from_str("-t"));
            mount_args.push(String::from_str("overlay"));
            mount_args.push(String::from_str("overlay"));
            mount_args.push(String::from_str("-o"));
            mount_args.push(concat_strs("lowerdir=", source));
            mount_args.push(target.clone());
            proof {
                assert(views(mount_args@) =~= seq![
                    "mount"@,
                    "-t"@,
                    "overlay"@,
                    "overlay"@,
                    "-o"@,
                    "lowerdir="@ + source@,
                    target@,
                ]);
            }
        },
        BindKind::OverlayRw => {
            let prefix = concat_strs(data_dir, "/");
            let work = concat_strs(prefix.as_str(), fresh_name().as_str());
            let upper = concat_strs(prefix.as_str(), fresh_name().as_str());
            let mut options = String::from_str("workdir=");
            options.append(work.as_str());
            options.append(",upperdir=");
            options.append(upper.as_str());
            options.append(",lowerdir=");
            options.append(source);
            mount_args.push(String::from_str("mount"));
            mount_args.push(String::from_str("-t"));
            mount_args.push(String::from_str("overlay"));
            mount_args.push(String::from_str("overlay"));
            mount_args.push(String::from_str("-o"));
            mount_args.push(options);
            mount_args.push(target.clone());
            aux_dirs.push(work);
            aux_dirs.push(upper);
            proof {
                assert(views(mount_args@) =~= seq![
                    "mount"@,
                    "-t"@,
                    "overlay"@,
                    "overlay"@,
                    "-o"@,
                    "workdir="@ + aux_dirs@[0]@ + ",upperdir="@ + aux_dirs@[1]@ + ",lowerdir="@
                        + source@,
                    target@,
                ]);
                assert forall|k: int| 0 <= k < 2 implies (data_dir@ + "/"@).is_prefix_of(
                    #[trigger] aux_dirs@[k]@,
                ) && aux_dirs@[k]@.len() == data_dir@.len() + 37 by {
                    reveal_strlit("/");
                    assert(aux_dirs@[k]@.subrange(0, data_dir@.len() as int + 1) =~= data_dir@
                        + "/"@);
                }
            }
        },
    }
    AttachPlan { target, mount_args, aux_dirs }
}

/// Plans the attachment of every extra binding, or reports the first binding
/// whose source failed canonicalization; in that case nothing is attached.
pub fn plan_attaches(
    bindings: &Vec<Binding>,
    sources: &Vec<Option<String>>,
    mount_point: &str,
    data_dir: &str,
) -> (r: Result<Vec<AttachPlan>, PathError>)
    requires
        bindings@.len() == sources@.len(),
    ensures
        r matches Ok(plans) ==> plans@.len() == bindings@.len() && (forall|i: int|
            0 <= i < bindings@.len() ==> sources@[i].is_some()) && (forall|i: int|
            0 <= i < bindings@.len() ==> plan_ok(
                #[trigger] plans@[i],
                bindings@[i],
                sources@[i].unwrap()@,
                mount_point@,
                data_dir@,
            )),
        r matches Err(e) ==> e.index < sources@.len() && sources@[e.index as int].is_none() && (
        forall|j: int| 0 <= j < e.index ==> sources@[j].is_some()),
{
    let mut plans: Vec<AttachPlan> = Vec::new();
    let mut i: usize = 0;
    while i < bindings.len()
        invariant
            i <= bindings.len(),
            bindings@.len() == sources@.len(),
            plans@.len() == i,
            forall|j: int| 0 <= j < i ==> sources@[j].is_some(),
            forall|j: int|
                0 <= j < i ==> plan_ok(
                    #[trigger] plans@[j],
                    bindings@[j],
                    sources@[j].unwrap()@,
                    mount_point@,
                    data_dir@,
                ),
        decreases bindings.len() - i,
    {
        match &sources[i] {
            None => {
                return Err(PathError { index: i });
            },
            Some(src) => {
                let plan = plan_attach(&bindings[i], src.as_str(), mount_point, data_dir);
                plans.push(plan);
            },
        }
        i = i + 1;
    }
    Ok(plans)
}

/// The recursive unmount of the overlay root, best-effort: a failure is
/// logged and non-fatal, since the mount table may already be gone.
pub open spec fn umount_args(mount: Seq<char>) -> Seq<Seq<char>> {
    seq!["umount"@, "-R"@, mount]
}

/// Renders the recursive unmount invocation.
pub fn umount_command(mount: &str) -> (r: Vec<String>)
    ensures
        views(r@) == umount_args(mount@),
{
    let mut args: Vec<String> = Vec::new();
    args.push(String::from_str("umount"));
    args.push(String::from_str("-R"));
    args.push(String::from_str(mount));
    proof {
        assert(views(args@) =~= umount_args(mount@));
    }
    args
}

/// The best-effort recursive deletion of a directory tree.
pub open spec fn remove_tree_args(path: Seq<char>) -> Seq<Seq<char>> {
    seq!["rm"@, "-rf"@, path]
}

/// Renders the recursive deletion invocation.
pub fn remove_tree_command(path: &str) -> (r: Vec<String>)
    ensures
        views(r@) == remove_tree_args(path@),
{
    let mut args: Vec<String> = Vec::new();
    args.push(String::from_str("rm"));
    args.push(String::from_str("-rf"));
    args.push(String::from_str(path));
    proof {
        assert(views(args@) =~= remove_tree_args(path@));
    }
    args
}

/// The privileged recursive creation of a binding target directory.
pub open spec fn mkdir_args(path: Seq<char>) -> Seq<Seq<char>> {
    seq!["mkdir"@, "-p"@, path]
}

/// Renders the recursive mkdir invocation.
pub fn mkdir_command(path: &str) -> (r: Vec<String>)
    ensures
        views(r@) == mkdir_args(path@),
{
    let mut args: Vec<String> = Vec::new();
    args.push(String::from_str("mkdir"));
    args.push(String::from_str("-p"));
    args.push(String::from_str(path));
    proof {
        assert(views(args@) =~= mkdir_args(path@));
    }
    args
}

/// The copy of the synced student data into the mounted root's data
/// directory, run with elevated privilege before a build.
pub open spec fn sync_data_args(workdir: Seq<char>, mount: Seq<char>) -> Seq<Seq<char>> {
    seq!["rsync"@, "-r"@, path_under(workdir, "student"@) + "/"@, path_under(mount, "data"@)]
}

/// Renders the student-data copy invocation.
pub fn sync_data_command(workdir: &str, mount: &str) -> (r: Vec<String>)
    ensures
        views(r@) == sync_data_args(workdir@, mount@),
{
    let mut args: Vec<String> = Vec::new();
    args.push(String::from_str("rsync"));
    args.push(String::from_str("-r"));
    let student = join_path(workdir, "student");
    args.push(concat_strs(student.as_str(), "/"));
    args.push(join_path(mount, "data"));
    proof {
        assert(views(args@) =~= sync_data_args(workdir@, mount@));
    }
    args
}

} // verus!
