//! The declarative policy that governs one sandbox invocation: resource
//! limits, syscall and capability filters, device toggles, and the extra
//! bind/overlay bindings shared by both backends.

use vstd::prelude::*;

verus! {

/// One environment variable to set inside the sandbox.
#[derive(Debug, Clone, PartialEq)]
pub struct EnvPair {
    pub name: String,
    pub value: String,
}

/// One syscall filter entry: the call is either permitted or denied.
#[derive(Debug, Clone, PartialEq)]
pub struct Syscall {
    pub name: String,
    pub permit: bool,
}

/// Optional resource ceilings; every field left `None` stays unlimited.
#[derive(Debug, Clone, PartialEq)]
pub struct Limit {
    /// Address-space ceiling in MiB.
    pub mem_limit: Option<usize>,
    /// Open-file-descriptor ceiling.
    pub nofile_limit: Option<usize>,
    /// Written-file-size ceiling.
    pub filesize_limit: Option<usize>,
    /// Process-count ceiling.
    pub process_limit: Option<usize>,
    /// Pending-signal ceiling.
    pub sigpending_limit: Option<usize>,
    /// Number of processor cores the sandbox may use.
    pub cpu_nums: Option<usize>,
}

/// How one extra binding is attached inside the sandbox root.
#[derive(Debug, Clone, Copy, PartialEq, Eq, Structural)]
pub enum BindKind {
    BindRw,
    BindRo,
    OverlayRw,
    OverlayRo,
}

/// One extra binding: `source` is relative to the unpacked base image,
/// `target` is a path inside the sandbox root.
///
/// Bindings live on the shared policy and apply identically under either
/// backend.
#[derive(Debug, Clone, PartialEq)]
pub struct Binding {
    pub source: String,
    pub target: String,
    pub kind: BindKind,
}

/// Policy for the namespace-container backend.
#[derive(Debug, Clone, PartialEq)]
pub struct NSpawnConfig {
    /// Run the payload as pid 2 under a stub init process.
    pub pid2: bool,
    pub env: Vec<EnvPair>,
    /// Working directory inside the root.
    pub work_path: Option<String>,
    pub syscall: Vec<Syscall>,
    pub capacity: Vec<String>,
    pub capacity_drop: Vec<String>,
    pub no_new_privileges: bool,
    pub no_network: bool,
    pub limit: Option<Limit>,
    pub shell: Option<String>,
}

/// A wall-clock timeout, rendered as `H:M:S`.
#[derive(Debug, Clone, PartialEq)]
pub struct Timeout {
    pub hour: u8,
    pub minute: u8,
    pub second: u8,
}

/// Independent device and privilege toggles of the jail backend; each one
/// that is set emits its own flag.
#[derive(Debug, Clone, PartialEq)]
pub struct FuntionList {
    pub nou2f: bool,
    pub novideo: bool,
    pub no3d: bool,
    pub noautopulse: bool,
    pub nogroups: bool,
    pub nonewprivs: bool,
    pub nodvd: bool,
    pub nodbus: bool,
    pub nonet: bool,
}

/// Policy for the jail backend.
#[derive(Debug, Clone, PartialEq)]
pub struct FirejailConfig {
    pub timeout: Option<Timeout>,
    pub syscall: Vec<Syscall>,
    pub shell: Option<String>,
    pub nice: Option<usize>,
    pub function: FuntionList,
    /// Name of a MAC profile to apply.
    pub mac: Option<String>,
    pub dns: Option<Vec<String>>,
    /// Suppress the backend's default profile.
    pub nodefault: bool,
    pub allow_debuggers: bool,
    pub limit: Option<Limit>,
    pub capacity: Vec<String>,
    pub capacity_drop: Vec<String>,
    /// An external profile file, relative to the working directory.
    pub with_profile: Option<String>,
    /// Allow access to the X display while the sandbox runs.
    pub has_x: bool,
    pub env: Vec<EnvPair>,
    pub env_remove: Vec<String>,
    pub whitelist: Vec<String>,
}

/// The whole policy pulled from the server: one sub-policy per backend plus
/// the shared fields.
#[derive(Debug, Clone, PartialEq)]
pub struct Config {
    pub systemd_nspawn: NSpawnConfig,
    pub firejail: FirejailConfig,
    /// Operator notification text, shown when non-empty.
    pub notification: String,
    /// Largest score a grader may assign.
    pub max_grade: usize,
    /// File whose contents are written to the child's stdin, relative to the
    /// unpacked base image.
    pub stdin: Option<String>,
    /// Extra bind/overlay bindings, applied identically under either backend.
    pub extra_bindings: Vec<Binding>,
}

} // verus!
