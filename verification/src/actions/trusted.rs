//! Trusted absolute-path command resolution. Never accepts free-form shell:
//! only the directories /usr/bin, /bin, /usr/sbin and /sbin are searched.

use vstd::prelude::*;

use crate::config::join_path;
use crate::config::join_paths;
use crate::error::AppError;
use crate::model::service::ServiceActionKind;
use crate::model::unit_registry::UnitRegistry;
use crate::text::is_white_space;
use crate::text::is_white_space_char;

verus! {

/// Allowlisted binaries under the trusted directories.
#[derive(Debug, Clone, Copy, PartialEq, Eq, Structural)]
pub enum TrustedCommand {
    Sudo,
    Systemctl,
    Timedatectl,
    Journalctl,
    Smartctl,
    Coredumpctl,
}

impl TrustedCommand {
    pub open spec fn name_text(self) -> Seq<char> {
        match self {
            TrustedCommand::Sudo => "sudo"@,
            TrustedCommand::Systemctl => "systemctl"@,
            TrustedCommand::Timedatectl => "timedatectl"@,
            TrustedCommand::Journalctl => "journalctl"@,
            TrustedCommand::Smartctl => "smartctl"@,
            TrustedCommand::Coredumpctl => "coredumpctl"@,
        }
    }

    pub fn binary_name(self) -> (s: &'static str)
        ensures
            s@ == self.name_text(),
    {
        match self {
            TrustedCommand::Sudo => "sudo",
            TrustedCommand::Systemctl => "systemctl",
            TrustedCommand::Timedatectl => "timedatectl",
            TrustedCommand::Journalctl => "journalctl",
            TrustedCommand::Smartctl => "smartctl",
            TrustedCommand::Coredumpctl => "coredumpctl",
        }
    }

    /// The binary's absolute path under a trusted directory.
    pub fn resolve(self) -> (r: Result<String, AppError>)
        ensures
            resolution_holds(self.name_text(), r),
    {
        resolve_trusted(self.binary_name())
    }
}

/// Caps for running an outside process: a timeout, a cap on what is read
/// from its standard output, and whether it is killed when dropped.
#[derive(Debug, Clone, Copy)]
pub struct ExecutionPolicy {
    pub timeout_ms: u64,
    pub max_stdout_bytes: usize,
    pub kill_on_drop: bool,
}

impl Default for ExecutionPolicy {
    /// Thirty seconds, two MiB of output, killed on drop.
    fn default() -> (p: Self)
        ensures
            p.timeout_ms == 30_000,
            p.max_stdout_bytes == 2 * 1024 * 1024,
            p.kill_on_drop,
    {
        ExecutionPolicy { timeout_ms: 30_000, max_stdout_bytes: 2 * 1024 * 1024, kill_on_drop: true }
    }
}

impl ExecutionPolicy {
    /// The default policy with a five-second timeout.
    pub fn short() -> (p: Self)
        ensures
            p.timeout_ms == 5_000,
            p.max_stdout_bytes == 2 * 1024 * 1024,
            p.kill_on_drop,
    {
        ExecutionPolicy { timeout_ms: 5_000, ..Self::default() }
    }
}

/// The trusted directories, in search order.
pub open spec fn trusted_dir(i: int) -> Seq<char> {
    if i == 0 {
        "/usr/bin"@
    } else if i == 1 {
        "/bin"@
    } else if i == 2 {
        "/usr/sbin"@
    } else {
        "/sbin"@
    }
}

/// A plain file name: not empty, no `/`, no NUL, no white space.
pub open spec fn acceptable_binary_name(b: Seq<char>) -> bool {
    &&& b.len() > 0
    &&& !b.contains('/')
    &&& !b.contains('\0')
    &&& forall|i: int| 0 <= i < b.len() ==> !is_white_space(b[i])
}

/// What resolving `binary` may give: for an unacceptable name the refusal;
/// otherwise one of the four candidate paths, or the not-found error (which
/// one depends on the files present when it runs).
pub open spec fn resolution_holds(binary: Seq<char>, r: Result<String, AppError>) -> bool {
    if !acceptable_binary_name(binary) {
        r matches Err(e) && e.is_internal("refusing untrusted binary name: "@ + binary)
    } else {
        match r {
            Ok(p) => exists|i: int| 0 <= i < 4 && p@ == join_path(trusted_dir(i), binary),
            Err(e) => e.is_internal("trusted binary not found: "@ + binary),
        }
    }
}

/// Whether a regular file exists at `path` (`Path::is_file`). It reads the
/// file system, so nothing is stated of the answer.
#[verifier::external_body]
fn is_file(path: &str) -> bool {
    std::path::Path::new(path).is_file()
}

fn acceptable_name(binary: &str) -> (b: bool)
    ensures
        b == acceptable_binary_name(binary@),
{
    let v = crate::text::chars_of(binary);
    if v.len() == 0 {
        return false;
    }
    let mut i: usize = 0;
    while i < v.len()
        invariant
            i <= v.len(),
            v@ == binary@,
            forall|j: int| 0 <= j < i ==> v@[j] != '/' && v@[j] != '\0' && !is_white_space(v@[j]),
        decreases v.len() - i,
    {
        let c = v[i];
        if c == '/' || c == '\0' || is_white_space_char(c) {
            proof {
                if c == '/' {
                    assert(binary@.contains('/'));
                }
                if c == '\0' {
                    assert(binary@.contains('\0'));
                }
            }
            return false;
        }
        i += 1;
    }
    true
}

fn internal_error(prefix: &str, binary: &str) -> (e: AppError)
    ensures
        e.is_internal(prefix@ + binary@),
{
    let mut s = String::from_str(prefix);
    s.append(binary);
    AppError::Internal(s)
}

/// The first trusted directory, from position `i` on, where the binary is
/// present.
pub open spec fn first_present(present: Seq<bool>, i: int) -> Option<int>
    decreases 4 - i,
{
    if i < 0 || i >= 4 || i >= present.len() {
        None
    } else if present[i] {
        Some(i)
    } else {
        first_present(present, i + 1)
    }
}

/// What resolving `binary` gives when `present[i]` tells whether it is a
/// file in the `i`-th trusted directory: for an unacceptable name the
/// refusal; else the path in the first directory that has it; else the
/// not-found error.
pub open spec fn resolved_by(binary: Seq<char>, present: Seq<bool>, r: Result<String, AppError>) -> bool {
    if !acceptable_binary_name(binary) {
        r matches Err(e) && e.is_internal("refusing untrusted binary name: "@ + binary)
    } else {
        match first_present(present, 0) {
            Some(i) => r matches Ok(p) && p@ == join_path(trusted_dir(i), binary),
            None => r matches Err(e) && e.is_internal("trusted binary not found: "@ + binary),
        }
    }
}

/// The four places to look for `binary`, in search order.
pub fn trusted_candidates(binary: &str) -> (v: Vec<String>)
    ensures
        v@.len() == 4,
        forall|i: int| 0 <= i < 4 ==> #[trigger] v@[i]@ == join_path(trusted_dir(i), binary@),
{
    let dirs: [&str; 4] = ["/usr/bin", "/bin", "/usr/sbin", "/sbin"];
    let mut v: Vec<String> = Vec::new();
    let mut i: usize = 0;
    while i < 4
        invariant
            i <= 4,
            v@.len() == i,
            forall|j: int| 0 <= j < 4 ==> dirs[j]@ == trusted_dir(j),
            forall|j: int| 0 <= j < i ==> #[trigger] v@[j]@ == join_path(trusted_dir(j), binary@),
        decreases 4 - i,
    {
        v.push(join_paths(dirs[i], binary));
        i += 1;
    }
    v
}

/// The resolution of `binary` from the four answers of the file system, in
/// search order.
pub fn pick_trusted(binary: &str, present: &Vec<bool>) -> (r: Result<String, AppError>)
    requires
        present@.len() == 4,
    ensures
        resolved_by(binary@, present@, r),
{
    if !acceptable_name(binary) {
        return Err(internal_error("refusing untrusted binary name: ", binary));
    }
    let cands = trusted_candidates(binary);
    let mut i: usize = 0;
    while i < 4
        invariant
            i <= 4,
            present@.len() == 4,
            acceptable_binary_name(binary@),
            cands@.len() == 4,
            forall|j: int| 0 <= j < 4 ==> #[trigger] cands@[j]@ == join_path(trusted_dir(j), binary@),
            first_present(present@, 0) == first_present(present@, i as int),
        decreases 4 - i,
    {
        if present[i] {
            return Ok(cands[i].clone());
        }
        i += 1;
    }
    Err(internal_error("trusted binary not found: ", binary))
}

/// Resolve a binary name to an absolute path under the trusted directories:
/// the candidates are asked in search order, up to the first that is a file.
/// The file system answers, so what holds for every answer stands here, and
/// `pick_trusted` says what comes back for each.
pub fn resolve_trusted(binary: &str) -> (r: Result<String, AppError>)
    ensures
        resolution_holds(binary@, r),
        exists|present: Seq<bool>| present.len() == 4 && #[trigger] resolved_by(binary@, present, r),
{
    if !acceptable_name(binary) {
        let r = Err(internal_error("refusing untrusted binary name: ", binary));
        assert(resolved_by(binary@, seq![false, false, false, false], r));
        return r;
    }
    let cands = trusted_candidates(binary);
    let mut present: Vec<bool> = Vec::new();
    let mut found = false;
    let mut i: usize = 0;
    while i < 4
        invariant
            i <= 4,
            present@.len() == i,
            cands@.len() == 4,
        decreases 4 - i,
    {
        if found {
            present.push(false);
        } else {
            let a = is_file(cands[i].as_str());
            present.push(a);
            found = a;
        }
        i += 1;
    }
    let r = pick_trusted(binary, &present);
    proof {
        let p = present@;
        reveal_with_fuel(first_present, 5);
        assert(resolved_by(binary@, p, r));
        match first_present(p, 0) {
            Some(k) => {
                assert(0 <= k < 4);
            },
            None => {},
        }
    }
    r
}

/// A name systemd would take for a unit, safe to place in an argument list:
/// 1 to 255 characters, each an ASCII letter or digit or one of `:-_.\@`,
/// and not starting with `-` (it would read as an option).
pub open spec fn unit_name_char(c: char) -> bool {
    ('a' <= c && c <= 'z') || ('A' <= c && c <= 'Z') || ('0' <= c && c <= '9') || c == ':' || c
        == '-' || c == '_' || c == '.' || c == '\\' || c == '@'
}

pub open spec fn safe_unit_name(u: Seq<char>) -> bool {
    &&& 0 < u.len() <= 255
    &&& u[0] != '-'
    &&& forall|i: int| 0 <= i < u.len() ==> unit_name_char(u[i])
}

pub fn unit_looks_safe(unit: &str) -> (b: bool)
    ensures
        b == safe_unit_name(unit@),
{
    let v = crate::text::chars_of(unit);
    if v.len() == 0 || v.len() > 255 || v[0] == '-' {
        return false;
    }
    let mut i: usize = 0;
    while i < v.len()
        invariant
            i <= v.len(),
            v@ == unit@,
            forall|j: int| 0 <= j < i ==> unit_name_char(v@[j]),
        decreases v.len() - i,
    {
        let c = v[i];
        let ok = ('a' <= c && c <= 'z') || ('A' <= c && c <= 'Z') || ('0' <= c && c <= '9') || c
            == ':' || c == '-' || c == '_' || c == '.' || c == '\\' || c == '@';
        if !ok {
            return false;
        }
        i += 1;
    }
    true
}

/// The argument list for `sudo -n <systemctl> <action> <unit>`.
pub open spec fn systemctl_argv(systemctl: Seq<char>, action: ServiceActionKind, unit: Seq<char>) -> Seq<Seq<char>> {
    seq!["-n"@, systemctl, action.label_text(), unit]
}

pub open spec fn texts(v: Seq<String>) -> Seq<Seq<char>> {
    v.map_values(|s: String| s@)
}

proof fn lemma_plain_names()
    ensures
        acceptable_binary_name("sudo"@),
        acceptable_binary_name("systemctl"@),
{
    reveal_strlit("sudo");
    reveal_strlit("systemctl");
    let a = "sudo"@;
    let b = "systemctl"@;
    assert(forall|i: int| 0 <= i < a.len() ==> 'a' <= #[trigger] a[i] <= 'z');
    assert(forall|i: int| 0 <= i < b.len() ==> 'a' <= #[trigger] b[i] <= 'z');
}

/// Argument list for `systemctl <action> <unit>` under `sudo -n`, with the
/// path of `sudo` to run it with. The caller checks registry membership
/// separately.
pub fn sudo_systemctl_args(action: ServiceActionKind, unit: &str) -> (r: Result<
    (String, Vec<String>),
    AppError,
>)
    ensures
        match r {
            Ok((sudo, args)) => {
                &&& safe_unit_name(unit@)
                &&& resolution_holds("sudo"@, Ok(sudo))
                &&& args@.len() == 4
                &&& resolution_holds("systemctl"@, Ok(args@[1]))
                &&& texts(args@) == systemctl_argv(args@[1]@, action, unit@)
            },
            Err(e) => {
                ||| e.is_internal("trusted binary not found: "@ + "sudo"@)
                ||| e.is_internal("trusted binary not found: "@ + "systemctl"@)
                ||| (e.is_systemd("refusing unsafe unit name"@) && !safe_unit_name(unit@))
            },
        },
        !safe_unit_name(unit@) ==> r is Err,
{
    proof {
        lemma_plain_names();
    }
    let sudo = match resolve_trusted("sudo") {
        Ok(p) => p,
        Err(e) => return Err(e),
    };
    let systemctl = match resolve_trusted("systemctl") {
        Ok(p) => p,
        Err(e) => return Err(e),
    };
    if !unit_looks_safe(unit) {
        return Err(AppError::Systemd(String::from_str("refusing unsafe unit name")));
    }
    let mut args: Vec<String> = Vec::new();
    args.push(String::from_str("-n"));
    args.push(systemctl.clone());
    args.push(String::from_str(action.label()));
    args.push(String::from_str(unit));
    assert(texts(args@) =~= systemctl_argv(systemctl@, action, unit@));
    Ok((sudo, args))
}

/// What running an outside program gave back: whether it exited with
/// success, its standard output, and its standard error as text.
#[derive(Debug, Clone)]
pub struct CommandOutput {
    pub success: bool,
    pub stdout: Vec<u8>,
    pub stderr: String,
}

/// Runs a program by absolute path with an argument list. The application
/// runs real processes; tests record the calls instead.
pub trait CommandRunner {
    fn run(&self, program: &str, args: &Vec<String>) -> Result<CommandOutput, AppError>;
}

/// The failure text for a `systemctl` run through `sudo` that did not succeed.
pub open spec fn sudo_failure_text(action: ServiceActionKind, unit: Seq<char>, stderr: Seq<char>) -> Seq<char> {
    "sudo systemctl "@ + action.label_text() + " "@ + unit + " failed: "@ + stderr
}

/// How a finished `sudo systemctl` run is reported: success, or a permission
/// error quoting the command's standard error.
pub fn systemctl_outcome(action: ServiceActionKind, unit: &str, out: &CommandOutput) -> (r: Result<(), AppError>)
    ensures
        out.success ==> r is Ok,
        !out.success ==> (r matches Err(e) && e.is_permission(
            sudo_failure_text(action, unit@, out.stderr@),
        )),
{
    if out.success {
        Ok(())
    } else {
        let mut m = String::from_str("sudo systemctl ");
        m.append(action.label());
        m.append(" ");
        m.append(unit);
        m.append(" failed: ");
        m.append(out.stderr.as_str());
        Err(AppError::Permission(m))
    }
}

/// The refusal for a unit the registry does not hold.
pub open spec fn unregistered_text(unit: Seq<char>) -> Seq<char> {
    "refusing action on unregistered unit "@ + unit
}

/// The library's own checks before `sudo systemctl` runs: the unit must be
/// registered, both binaries must resolve under the trusted directories,
/// and the unit name must be safe. Gives the `sudo` path and its argument
/// list.
pub fn prepare_sudo_systemctl(action: ServiceActionKind, unit: &str, registry: &UnitRegistry) -> (r: Result<
    (String, Vec<String>),
    AppError,
>)
    ensures
        !registry.known().contains(unit@) <==> (r matches Err(e) && e.is_systemd(
            unregistered_text(unit@),
        )),
        r matches Err(e) && e.is_systemd("refusing unsafe unit name"@) ==> registry.known().contains(
            unit@,
        ) && !safe_unit_name(unit@),
        registry.known().contains(unit@) && !safe_unit_name(unit@) ==> (r matches Err(e) && (
        e.is_internal("trusted binary not found: "@ + "sudo"@) || e.is_internal(
            "trusted binary not found: "@ + "systemctl"@,
        ) || e.is_systemd("refusing unsafe unit name"@))),
        registry.known().contains(unit@) ==> match r {
            Ok((sudo, args)) => {
                &&& safe_unit_name(unit@)
                &&& resolution_holds("sudo"@, Ok(sudo))
                &&& args@.len() == 4
                &&& resolution_holds("systemctl"@, Ok(args@[1]))
                &&& texts(args@) == systemctl_argv(args@[1]@, action, unit@)
            },
            Err(e) => {
                ||| e.is_internal("trusted binary not found: "@ + "sudo"@)
                ||| e.is_internal("trusted binary not found: "@ + "systemctl"@)
                ||| (e.is_systemd("refusing unsafe unit name"@) && !safe_unit_name(unit@))
            },
        },
{
    proof {
        lemma_internal_not_unregistered(unit@);
    }
    if registry.is_empty() || !registry.contains(unit) {
        let mut m = String::from_str("refusing action on unregistered unit ");
        m.append(unit);
        return Err(AppError::Systemd(m));
    }
    sudo_systemctl_args(action, unit)
}

proof fn lemma_internal_not_unregistered(unit: Seq<char>)
    ensures
        unregistered_text(unit) != "refusing unsafe unit name"@,
{
    reveal_strlit("refusing unsafe unit name");
    reveal_strlit("refusing action on unregistered unit ");
    assert(unregistered_text(unit)[9] == 'a');
    assert("refusing unsafe unit name"@[9] == 'u');
}

/// Runs `systemctl <action> <unit>` through `sudo -n` with `runner`, only for
/// a unit the registry holds and whose name is safe: the checks of
/// `prepare_sudo_systemctl` come first, and a refusal there is returned
/// as it is; then the runner runs the command, and a run that did not
/// succeed is a permission error quoting its standard error. An error the
/// runner itself returns is passed on unchanged.
pub fn run_sudo_systemctl<R: CommandRunner>(
    runner: &R,
    action: ServiceActionKind,
    unit: &str,
    registry: &UnitRegistry,
) -> (r: Result<(), AppError>)
    ensures
        !registry.known().contains(unit@) ==> (r matches Err(e) && e.is_systemd(
            unregistered_text(unit@),
        )),
        registry.known().contains(unit@) && !safe_unit_name(unit@) ==> (r matches Err(e) && (
        e.is_internal("trusted binary not found: "@ + "sudo"@) || e.is_internal(
            "trusted binary not found: "@ + "systemctl"@,
        ) || e.is_systemd("refusing unsafe unit name"@))),
        r is Ok ==> registry.known().contains(unit@) && safe_unit_name(unit@),
{
    let (sudo, args) = match prepare_sudo_systemctl(action, unit, registry) {
        Ok(p) => p,
        Err(e) => return Err(e),
    };
    let out = match runner.run(sudo.as_str(), &args) {
        Ok(o) => o,
        Err(e) => return Err(e),
    };
    systemctl_outcome(action, unit, &out)
}

} // verus!
