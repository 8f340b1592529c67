//! Bootstrapping the toolchains that apps run on: the Python packaging tool,
//! the Node version manager, the pinned Node runtime, and the shim script that
//! gives configuration entries a stable path to the package runner.
//!
//! The decisions live here as state machines; the caller performs each
//! `Task` that a machine asks for and hands back what came of it. Nothing in
//! this module runs a process or touches the disk; the one thing it asks of
//! the machine itself is where the home directory is.
use crate::text::{
    concat_text, contains, contains_spec, first_line, split_line, str_eq, trim, trimmed,
};
use vstd::prelude::*;

verus! {

/// The Node release that the runtime must match exactly.
pub const NODE_VERSION: &'static str = "v20.9.0";

/// Where the shim lives, relative to the home directory.
pub const SHIM_RELATIVE_PATH: &'static str = ".local/share/fleur/bin/npx-fleur";

/// The directory that holds the shim, relative to the home directory.
pub const SHIM_RELATIVE_DIR: &'static str = ".local/share/fleur/bin";

/// The shim path reported in test mode.
pub const TEST_SHIM_PATH: &'static str = "/test/.local/share/fleur/bin/npx-fleur";

pub const UV_READY: &'static str = "UV environment is ready";

pub const NODE_READY: &'static str = "Node environment is ready";

/// What the toolchain logic remembers between calls: one flag per toolchain
/// (set once it was found or installed, cleared only by a reset), whether a
/// bootstrap has been started, and whether the instance runs in test mode,
/// where every toolchain counts as present and no task is ever asked for.
#[derive(Clone, Copy, Debug, PartialEq, Eq, Structural)]
pub struct EnvironmentState {
    pub uv_installed: bool,
    pub nvm_installed: bool,
    pub node_installed: bool,
    pub setup_started: bool,
    pub test_mode: bool,
}

/// Work that only the caller can do. Each is answered with a `CommandResult`:
/// the probes and installers by the exit status and output of the process; the
/// file checks and writes by `Exited { success, .. }` or `LaunchFailed(error)`.
#[derive(Debug)]
pub enum Task {
    /// `which uv`
    WhichUv,
    /// `uv --version`
    UvVersion,
    /// Run the uv installer script.
    InstallUv,
    /// Whether `~/.nvm` exists.
    NvmDirExists,
    /// `nvm --version`, with nvm sourced.
    NvmVersion,
    /// Run the nvm installer script.
    InstallNvm,
    /// `which node`
    WhichNode,
    /// `node --version`
    NodeVersion,
    /// Source nvm and print where `nvm` resolves.
    SourceNvm,
    /// `nvm install` of `NODE_VERSION`.
    InstallNode,
    /// `nvm use` of `NODE_VERSION`, then print `which node` and `which npx`, one per line.
    NodePaths,
    /// `which uvx`
    WhichUvx,
    /// Whether a file exists at `path`.
    FileExists { path: String },
    /// Create the directory `path` and its parents.
    CreateDir { path: String },
    /// Write `content` to the file at `path`.
    WriteFile { path: String, content: String },
    /// Mark the file at `path` executable.
    MakeExecutable { path: String },
}

/// What came of a `Task`.
#[derive(Debug)]
pub enum CommandResult {
    LaunchFailed(String),
    Exited { success: bool, stdout: String, stderr: String },
}

/// The answer of a machine: the next task to run, in the given step, or the result.
#[derive(Debug)]
pub enum Next<S, T> {
    Run(S, Task),
    Done(T),
}

pub open spec fn succeeded(out: CommandResult) -> bool {
    match out {
        CommandResult::Exited { success, .. } => success,
        _ => false,
    }
}

/// The text that explains a failed task: the launch error, or what the process wrote to stderr.
pub open spec fn failure_text(out: CommandResult) -> Seq<char> {
    match out {
        CommandResult::LaunchFailed(e) => e@,
        CommandResult::Exited { stderr, .. } => stderr@,
    }
}

pub open spec fn stdout_of(out: CommandResult) -> Seq<char> {
    match out {
        CommandResult::Exited { stdout, .. } => stdout@,
        _ => Seq::empty(),
    }
}

pub open spec fn done_ok<S>(r: Next<S, Result<String, String>>, msg: Seq<char>) -> bool {
    r is Done && r->Done_0 is Ok && r->Done_0->Ok_0@ == msg
}

pub open spec fn done_err<S>(r: Next<S, Result<String, String>>, msg: Seq<char>) -> bool {
    r is Done && r->Done_0 is Err && r->Done_0->Err_0@ == msg
}

/// Test mode and the bootstrap flag are left as they were.
pub open spec fn keeps_modes(a: EnvironmentState, b: EnvironmentState) -> bool {
    a.test_mode == b.test_mode && a.setup_started == b.setup_started
}

fn succeeded_exec(out: &CommandResult) -> (r: bool)
    ensures
        r == succeeded(*out),
{
    match out {
        CommandResult::Exited { success, .. } => *success,
        _ => false,
    }
}

fn failure_message(prefix: &str, out: &CommandResult) -> (r: String)
    ensures
        r@ == prefix@ + failure_text(*out),
{
    match out {
        CommandResult::LaunchFailed(e) => concat_text(prefix, e.as_str()),
        CommandResult::Exited { stderr, .. } => concat_text(prefix, stderr.as_str()),
    }
}

impl EnvironmentState {
    /// Nothing known yet, and no bootstrap started.
    pub fn new() -> (r: EnvironmentState)
        ensures
            !r.uv_installed && !r.nvm_installed && !r.node_installed,
            !r.setup_started && !r.test_mode,
    {
        EnvironmentState {
            uv_installed: false,
            nvm_installed: false,
            node_installed: false,
            setup_started: false,
            test_mode: false,
        }
    }

    pub fn set_test_mode(&mut self, enabled: bool)
        ensures
            *final(self) == (EnvironmentState { test_mode: enabled, ..*old(self) }),
    {
        self.test_mode = enabled;
    }

    /// Forget every toolchain flag and the bootstrap flag; test mode stays.
    pub fn reset_environment_state_for_tests(&mut self)
        ensures
            !final(self).uv_installed && !final(self).nvm_installed && !final(self).node_installed,
            !final(self).setup_started,
            final(self).test_mode == old(self).test_mode,
    {
        self.setup_started = false;
        self.uv_installed = false;
        self.nvm_installed = false;
        self.node_installed = false;
    }
}

// ---------------------------------------------------------------------------
// The Python packaging tool

/// Where the uv machine stands. A failed probe is repeated once before the
/// installer runs: installing re-checks presence first.
#[derive(Clone, Copy, Debug, PartialEq, Eq, Structural)]
pub enum UvStep {
    Probe { retry: bool },
    Version { retry: bool },
    Install,
}

pub type UvNext = Next<UvStep, Result<String, String>>;

/// The step after a failed probe.
pub open spec fn uv_probe_failed(r: UvNext, retry: bool) -> bool {
    if retry {
        r is Run && r->Run_0 == UvStep::Install && r->Run_1 is InstallUv
    } else {
        r is Run && r->Run_0 == (UvStep::Probe { retry: true }) && r->Run_1 is WhichUv
    }
}

fn uv_after_failed_probe(retry: bool) -> (r: UvNext)
    ensures
        uv_probe_failed(r, retry),
{
    if retry {
        Next::Run(UvStep::Install, Task::InstallUv)
    } else {
        Next::Run(UvStep::Probe { retry: true }, Task::WhichUv)
    }
}

/// How the uv machine starts.
pub open spec fn uv_start_spec(state: EnvironmentState, r: UvNext) -> bool {
    &&& state.test_mode || state.uv_installed ==> done_ok(r, UV_READY@)
    &&& !(state.test_mode || state.uv_installed) ==> r is Run && r->Run_0 == (UvStep::Probe {
        retry: false,
    }) && r->Run_1 is WhichUv
}

/// Make sure uv is present: done at once in test mode or once it is known to
/// be there; otherwise probe for it.
pub fn ensure_uv_environment(state: &EnvironmentState) -> (r: UvNext)
    ensures
        uv_start_spec(*state, r),
{
    if state.test_mode || state.uv_installed {
        Next::Done(Ok(UV_READY.to_owned()))
    } else {
        Next::Run(UvStep::Probe { retry: false }, Task::WhichUv)
    }
}

/// One move of the uv machine, from state `s0` to `s1`.
pub open spec fn uv_step_spec(
    s0: EnvironmentState,
    s1: EnvironmentState,
    step: UvStep,
    out: CommandResult,
    r: UvNext,
) -> bool {
    &&& keeps_modes(s0, s1)
    &&& s1.nvm_installed == s0.nvm_installed
    &&& s1.node_installed == s0.node_installed
    &&& s1.uv_installed == (s0.uv_installed || (!(step is Probe) && succeeded(out)))
    &&& match step {
        UvStep::Probe { retry } => if succeeded(out) {
            r is Run && r->Run_0 == (UvStep::Version { retry }) && r->Run_1 is UvVersion
        } else {
            uv_probe_failed(r, retry)
        },
        UvStep::Version { retry } => if succeeded(out) {
            done_ok(r, UV_READY@)
        } else {
            uv_probe_failed(r, retry)
        },
        UvStep::Install => if succeeded(out) {
            done_ok(r, UV_READY@)
        } else if out is LaunchFailed {
            done_err(r, "Failed to install uv: "@ + failure_text(out))
        } else {
            done_err(r, "uv installation failed: "@ + failure_text(out))
        },
    }
}

/// Advance the uv machine by what came of its last task. The flag is set only
/// when uv answered its version probe or its installer succeeded.
pub fn uv_step(state: &mut EnvironmentState, step: UvStep, out: &CommandResult) -> (r: UvNext)
    ensures
        uv_step_spec(*old(state), *final(state), step, *out, r),
{
    let ok = succeeded_exec(out);
    match step {
        UvStep::Probe { retry } => if ok {
            Next::Run(UvStep::Version { retry }, Task::UvVersion)
        } else {
            uv_after_failed_probe(retry)
        },
        UvStep::Version { retry } => if ok {
            state.uv_installed = true;
            Next::Done(Ok(UV_READY.to_owned()))
        } else {
            uv_after_failed_probe(retry)
        },
        UvStep::Install => if ok {
            state.uv_installed = true;
            Next::Done(Ok(UV_READY.to_owned()))
        } else {
            match out {
                CommandResult::LaunchFailed(_) => Next::Done(
                    Err(failure_message("Failed to install uv: ", out)),
                ),
                _ => Next::Done(Err(failure_message("uv installation failed: ", out))),
            }
        },
    }
}

// ---------------------------------------------------------------------------
// Paths

/// `rel` appended to `base` as a path, with one separator between them; an
/// empty base leaves `rel` relative.
pub open spec fn join_path(base: Seq<char>, rel: Seq<char>) -> Seq<char> {
    if base.len() == 0 {
        rel
    } else if base.last() == '/' {
        base + rel
    } else {
        base + "/"@ + rel
    }
}

pub fn join(base: &str, rel: &str) -> (r: String)
    ensures
        r@ == join_path(base@, rel@),
{
    let n = base.unicode_len();
    if n == 0 {
        rel.to_owned()
    } else if base.get_char(n - 1) == '/' {
        concat_text(base, rel)
    } else {
        let with_sep = concat_text(base, "/");
        concat_text(with_sep.as_str(), rel)
    }
}

/// Relies on dirs::home_dir: the current user's home directory, where one can
/// be found. What it returns depends on the machine, so nothing is promised.
#[verifier::external_body]
pub(crate) fn home_dir() -> (r: Option<String>) {
    dirs::home_dir().map(|p| p.to_string_lossy().into_owned())
}

/// The shim path under a given home directory.
pub fn shim_path_in(home: &str) -> (r: String)
    ensures
        r@ == join_path(home@, SHIM_RELATIVE_PATH@),
{
    join(home, SHIM_RELATIVE_PATH)
}

/// The stable path of the shim: the fixed test path in test mode, else under
/// the home directory (relative where none is found).
pub fn get_npx_shim_path(state: &EnvironmentState) -> (r: String)
    ensures
        state.test_mode ==> r@ == TEST_SHIM_PATH@,
        !state.test_mode ==> exists|home: Seq<char>| r@ == join_path(home, SHIM_RELATIVE_PATH@),
{
    if state.test_mode {
        return TEST_SHIM_PATH.to_owned();
    }
    match home_dir() {
        Some(home) => shim_path_in(home.as_str()),
        None => shim_path_in(""),
    }
}

/// The first two lines of the path probe's output, each trimmed; the first
/// must lie in an nvm-managed Node installation.
pub open spec fn node_paths_spec(out: CommandResult) -> Result<(Seq<char>, Seq<char>), Seq<char>> {
    match out {
        CommandResult::LaunchFailed(e) => Err("Failed to get node paths: "@ + e@),
        CommandResult::Exited { success, stdout, .. } => if !success {
            Err("Failed to get node and npx paths"@)
        } else {
            match split_line(stdout@) {
                None => Err("Failed to get node path"@),
                Some((first, rest)) => match split_line(rest) {
                    None => Err("Failed to get npx path"@),
                    Some((second, _)) => if !contains_spec(trimmed(first), ".nvm/versions/node"@) {
                        Err("Node path is not from nvm installation"@)
                    } else {
                        Ok((trimmed(first), trimmed(second)))
                    },
                },
            }
        },
    }
}

/// Read the node and npx paths from what the path probe printed.
pub fn node_paths_from(out: &CommandResult) -> (r: Result<(String, String), String>)
    ensures
        match r {
            Ok((node, npx)) => node_paths_spec(*out) == Ok::<_, Seq<char>>((node@, npx@)),
            Err(e) => node_paths_spec(*out) == Err::<(Seq<char>, Seq<char>), _>(e@),
        },
{
    match out {
        CommandResult::LaunchFailed(e) => Err(concat_text("Failed to get node paths: ", e.as_str())),
        CommandResult::Exited { success, stdout, .. } => {
            if !*success {
                return Err("Failed to get node and npx paths".to_owned());
            }
            let (first, rest) = match first_line(stdout.as_str()) {
                Some(p) => p,
                None => {
                    return Err("Failed to get node path".to_owned());
                },
            };
            let second = match first_line(rest.as_str()) {
                Some((l, _)) => l,
                None => {
                    return Err("Failed to get npx path".to_owned());
                },
            };
            let node = trim(first.as_str());
            let npx = trim(second.as_str());
            if !contains(node.as_str(), ".nvm/versions/node") {
                return Err("Node path is not from nvm installation".to_owned());
            }
            Ok((node, npx))
        },
    }
}

/// The node and npx paths: fixed ones in test mode, else the path probe runs.
pub fn get_nvm_node_paths(state: &EnvironmentState) -> (r: Next<(), Result<(String, String), String>>)
    ensures
        state.test_mode ==> r is Done && r->Done_0 is Ok && r->Done_0->Ok_0.0@ == "/test/node"@
            && r->Done_0->Ok_0.1@ == "/test/npx"@,
        !state.test_mode ==> r is Run && r->Run_1 is NodePaths,
{
    if state.test_mode {
        Next::Done(Ok(("/test/node".to_owned(), "/test/npx".to_owned())))
    } else {
        Next::Run((), Task::NodePaths)
    }
}

/// The uvx path: a fixed one in test mode, else `which uvx` runs.
pub fn get_uvx_path(state: &EnvironmentState) -> (r: Next<(), Result<String, String>>)
    ensures
        state.test_mode ==> done_ok(r, "/test/uvx"@),
        !state.test_mode ==> r is Run && r->Run_1 is WhichUvx,
{
    if state.test_mode {
        Next::Done(Ok("/test/uvx".to_owned()))
    } else {
        Next::Run((), Task::WhichUvx)
    }
}

/// Read the uvx path from what `which uvx` printed.
pub fn uvx_path_from(out: &CommandResult) -> (r: Result<String, String>)
    ensures
        match *out {
            CommandResult::LaunchFailed(e) => r is Err && r->Err_0@ == "Failed to get uvx path: "@
                + e@,
            CommandResult::Exited { success, stdout, .. } => if success {
                r is Ok && r->Ok_0@ == trimmed(stdout@)
            } else {
                r is Err && r->Err_0@ == "uvx not found in PATH"@
            },
        },
{
    match out {
        CommandResult::LaunchFailed(e) => Err(concat_text("Failed to get uvx path: ", e.as_str())),
        CommandResult::Exited { success, stdout, .. } => if *success {
            Ok(trim(stdout.as_str()))
        } else {
            Err("uvx not found in PATH".to_owned())
        },
    }
}

// ---------------------------------------------------------------------------
// The shim

/// The shim script: put the runtime's directory first on the search path,
/// then hand every argument to the package runner.
pub open spec fn shim_script_spec(node: Seq<char>, npx: Seq<char>) -> Seq<char> {
    "#!/bin/sh\n# NPX shim for Fleur\n\nNODE=\""@ + node + "\"\nNPX=\""@ + npx
        + "\"\n\nexport PATH=\"$(dirname \"$NODE\"):$PATH\"\n\nexec \"$NPX\" \"$@\"\n"@
}

pub fn shim_script(node: &str, npx: &str) -> (r: String)
    ensures
        r@ == shim_script_spec(node@, npx@),
{
    let a = concat_text("#!/bin/sh\n# NPX shim for Fleur\n\nNODE=\"", node);
    let b = concat_text(a.as_str(), "\"\nNPX=\"");
    let c = concat_text(b.as_str(), npx);
    concat_text(c.as_str(), "\"\n\nexport PATH=\"$(dirname \"$NODE\"):$PATH\"\n\nexec \"$NPX\" \"$@\"\n")
}

/// Where the shim machine stands.
#[derive(Debug)]
pub enum ShimStep {
    Exists { path: String, dir: String },
    Paths { path: String, dir: String },
    CreateDir { path: String, content: String },
    Write { path: String },
    Chmod { path: String },
}

pub type ShimNext = Next<ShimStep, Result<String, String>>;

/// How the shim machine starts.
pub open spec fn shim_start_spec(state: EnvironmentState, r: ShimNext) -> bool {
    &&& state.test_mode ==> done_ok(r, TEST_SHIM_PATH@)
    &&& !state.test_mode ==> r is Run && r->Run_0 is Exists && r->Run_1 == (Task::FileExists {
        path: r->Run_0->Exists_path,
    }) && exists|home: Seq<char>|
        r->Run_0->Exists_path@ == join_path(home, SHIM_RELATIVE_PATH@)
            && r->Run_0->Exists_dir@ == join_path(home, SHIM_RELATIVE_DIR@)
}

/// Make sure the shim exists: in test mode the fixed path is reported at
/// once; otherwise check whether the file is already there.
pub fn ensure_npx_shim(state: &EnvironmentState) -> (r: ShimNext)
    ensures
        shim_start_spec(*state, r),
{
    if state.test_mode {
        return Next::Done(Ok(TEST_SHIM_PATH.to_owned()));
    }
    let home = match home_dir() {
        Some(h) => h,
        None => String::new(),
    };
    let path = join(home.as_str(), SHIM_RELATIVE_PATH);
    let dir = join(home.as_str(), SHIM_RELATIVE_DIR);
    let task = Task::FileExists { path: path.clone() };
    Next::Run(ShimStep::Exists { path, dir }, task)
}

/// One move of the shim machine.
pub open spec fn shim_step_spec(step: ShimStep, out: CommandResult, r: ShimNext) -> bool {
    match step {
        ShimStep::Exists { path, dir } => if succeeded(out) {
            done_ok(r, path@)
        } else {
            r is Run && r->Run_0 == (ShimStep::Paths { path, dir }) && r->Run_1 is NodePaths
        },
        ShimStep::Paths { path, dir } => match node_paths_spec(out) {
            Err(e) => done_err(r, e),
            Ok((node, npx)) => r is Run && r->Run_0 is CreateDir && r->Run_0->CreateDir_path
                == path && r->Run_0->CreateDir_content@ == shim_script_spec(node, npx)
                && r->Run_1 == (Task::CreateDir { path: dir }),
        },
        ShimStep::CreateDir { path, content } => if succeeded(out) {
            r is Run && r->Run_0 == (ShimStep::Write { path }) && r->Run_1 == (Task::WriteFile {
                path,
                content,
            })
        } else {
            done_err(r, "Failed to create shim directory: "@ + failure_text(out))
        },
        ShimStep::Write { path } => if succeeded(out) {
            r is Run && r->Run_0 == (ShimStep::Chmod { path }) && r->Run_1 == (
            Task::MakeExecutable { path })
        } else {
            done_err(r, "Failed to write shim script: "@ + failure_text(out))
        },
        ShimStep::Chmod { path } => if succeeded(out) {
            done_ok(r, path@)
        } else {
            done_err(r, "Failed to make shim executable: "@ + failure_text(out))
        },
    }
}

/// Advance the shim machine. An existing file is taken as it is; otherwise
/// the runtime's paths are read, the directory made, the script written and
/// marked executable. Every one of these steps must succeed, the permission
/// change included, for the shim path to be reported.
pub fn shim_step(step: ShimStep, out: &CommandResult) -> (r: ShimNext)
    ensures
        shim_step_spec(step, *out, r),
{
    let ok = succeeded_exec(out);
    match step {
        ShimStep::Exists { path, dir } => if ok {
            Next::Done(Ok(path))
        } else {
            Next::Run(ShimStep::Paths { path, dir }, Task::NodePaths)
        },
        ShimStep::Paths { path, dir } => match node_paths_from(out) {
            Err(e) => Next::Done(Err(e)),
            Ok((node, npx)) => {
                let content = shim_script(node.as_str(), npx.as_str());
                Next::Run(ShimStep::CreateDir { path, content }, Task::CreateDir { path: dir })
            },
        },
        ShimStep::CreateDir { path, content } => if ok {
            let task = Task::WriteFile { path: path.clone(), content };
            Next::Run(ShimStep::Write { path }, task)
        } else {
            Next::Done(Err(failure_message("Failed to create shim directory: ", out)))
        },
        ShimStep::Write { path } => if ok {
            let task = Task::MakeExecutable { path: path.clone() };
            Next::Run(ShimStep::Chmod { path }, task)
        } else {
            Next::Done(Err(failure_message("Failed to write shim script: ", out)))
        },
        ShimStep::Chmod { path } => if ok {
            Next::Done(Ok(path))
        } else {
            Next::Done(Err(failure_message("Failed to make shim executable: ", out)))
        },
    }
}

// ---------------------------------------------------------------------------
// The Node version manager and runtime

/// Where the Node machine stands. The shim is made last, by the shim machine
/// run inside this one.
#[derive(Debug)]
pub enum NodeStep {
    NvmDir,
    NvmVersion,
    InstallNvm,
    WhichNode,
    NodeVersion,
    SourceNvm,
    InstallNode,
    Shim(ShimStep),
}

pub type NodeNext = Next<NodeStep, Result<String, String>>;

/// A move of the shim machine seen from the Node machine: its tasks are
/// passed on, its success means the Node environment is ready.
pub open spec fn lifted(sr: ShimNext, r: NodeNext) -> bool {
    match sr {
        Next::Run(st, t) => r == Next::<NodeStep, Result<String, String>>::Run(NodeStep::Shim(st), t),
        Next::Done(Ok(_)) => done_ok(r, NODE_READY@),
        Next::Done(Err(e)) => done_err(r, e@),
    }
}

/// The Node machine has reached the shim: it starts the shim machine and
/// answers as that machine does.
pub open spec fn enters_shim(state: EnvironmentState, r: NodeNext) -> bool {
    exists|sr: ShimNext| shim_start_spec(state, sr) && lifted(sr, r)
}

/// The Node machine once nvm is present: the runtime is checked unless it is
/// known to be the pinned release.
pub open spec fn after_nvm(state: EnvironmentState, r: NodeNext) -> bool {
    if state.test_mode || state.node_installed {
        enters_shim(state, r)
    } else {
        r is Run && r->Run_0 is WhichNode && r->Run_1 is WhichNode
    }
}

fn lift(sr: ShimNext) -> (r: NodeNext)
    ensures
        lifted(sr, r),
{
    match sr {
        Next::Run(st, t) => Next::Run(NodeStep::Shim(st), t),
        Next::Done(Ok(_)) => Next::Done(Ok(NODE_READY.to_owned())),
        Next::Done(Err(e)) => Next::Done(Err(e)),
    }
}

fn start_shim(state: &EnvironmentState) -> (r: NodeNext)
    ensures
        enters_shim(*state, r),
        state.test_mode ==> done_ok(r, NODE_READY@),
{
    let sr = ensure_npx_shim(state);
    let ghost g = sr;
    let r = lift(sr);
    assert(shim_start_spec(*state, g) && lifted(g, r));
    r
}

fn node_after_nvm(state: &EnvironmentState) -> (r: NodeNext)
    ensures
        after_nvm(*state, r),
{
    if state.test_mode || state.node_installed {
        start_shim(state)
    } else {
        Next::Run(NodeStep::WhichNode, Task::WhichNode)
    }
}

/// What `which node` tells: whether a Node runtime is on the search path.
pub open spec fn node_presence_spec(which: CommandResult) -> Result<(), Seq<char>> {
    match which {
        CommandResult::LaunchFailed(e) => Err("Failed to check node existence: "@ + e@),
        CommandResult::Exited { success, .. } => if success {
            Ok(())
        } else {
            Err("Node not found in PATH"@)
        },
    }
}

/// What `node --version` tells: the trimmed version it printed.
pub open spec fn node_version_spec(version: CommandResult) -> Result<Seq<char>, Seq<char>> {
    match version {
        CommandResult::LaunchFailed(e) => Err("Failed to check node version: "@ + e@),
        CommandResult::Exited { success, stdout, .. } => if success {
            Ok(trimmed(stdout@))
        } else {
            Err("Failed to get Node version"@)
        },
    }
}

/// Read the result of the `which node` probe.
pub fn node_presence_from(which: &CommandResult) -> (r: Result<(), String>)
    ensures
        match r {
            Ok(()) => node_presence_spec(*which) == Ok::<(), Seq<char>>(()),
            Err(e) => node_presence_spec(*which) == Err::<(), Seq<char>>(e@),
        },
{
    match which {
        CommandResult::LaunchFailed(e) => Err(concat_text("Failed to check node existence: ", e.as_str())),
        CommandResult::Exited { success, .. } => if *success {
            Ok(())
        } else {
            Err("Node not found in PATH".to_owned())
        },
    }
}

/// Read the result of the `node --version` probe.
pub fn node_version_from(version: &CommandResult) -> (r: Result<String, String>)
    ensures
        match r {
            Ok(v) => node_version_spec(*version) == Ok::<Seq<char>, Seq<char>>(v@),
            Err(e) => node_version_spec(*version) == Err::<Seq<char>, Seq<char>>(e@),
        },
{
    match version {
        CommandResult::LaunchFailed(e) => Err(concat_text("Failed to check node version: ", e.as_str())),
        CommandResult::Exited { success, stdout, .. } => if *success {
            Ok(trim(stdout.as_str()))
        } else {
            Err("Failed to get Node version".to_owned())
        },
    }
}

/// How the Node machine starts.
pub open spec fn node_start_spec(state: EnvironmentState, r: NodeNext) -> bool {
    &&& state.test_mode ==> done_ok(r, NODE_READY@)
    &&& !state.test_mode && state.nvm_installed ==> after_nvm(state, r)
    &&& !state.test_mode && !state.nvm_installed ==> r is Run && r->Run_0 is NvmDir
        && r->Run_1 is NvmDirExists
}

/// Make sure nvm, the pinned Node release and the shim are in place. In test
/// mode everything counts as present.
pub fn ensure_node_environment(state: &EnvironmentState) -> (r: NodeNext)
    ensures
        node_start_spec(*state, r),
{
    if state.test_mode || state.nvm_installed {
        node_after_nvm(state)
    } else {
        Next::Run(NodeStep::NvmDir, Task::NvmDirExists)
    }
}

/// One move of the Node machine, from state `s0` to `s1`.
pub open spec fn node_step_spec(
    s0: EnvironmentState,
    s1: EnvironmentState,
    step: NodeStep,
    out: CommandResult,
    r: NodeNext,
) -> bool {
    &&& keeps_modes(s0, s1)
    &&& s1.uv_installed == s0.uv_installed
    &&& s1.nvm_installed == (s0.nvm_installed || ((step is NvmVersion || step is InstallNvm)
        && succeeded(out)))
    &&& s1.node_installed == (s0.node_installed || (step is InstallNode && succeeded(out)) || (
    step is NodeVersion && node_version_spec(out) == Ok::<Seq<char>, Seq<char>>(NODE_VERSION@)))
    &&& match step {
        NodeStep::NvmDir => if succeeded(out) {
            r is Run && r->Run_0 is NvmVersion && r->Run_1 is NvmVersion
        } else {
            r is Run && r->Run_0 is InstallNvm && r->Run_1 is InstallNvm
        },
        NodeStep::NvmVersion => if succeeded(out) {
            after_nvm(s1, r)
        } else {
            r is Run && r->Run_0 is InstallNvm && r->Run_1 is InstallNvm
        },
        NodeStep::InstallNvm => if succeeded(out) {
            after_nvm(s1, r)
        } else if out is LaunchFailed {
            done_err(r, "Failed to install nvm: "@ + failure_text(out))
        } else {
            done_err(r, "nvm installation failed: "@ + failure_text(out))
        },
        NodeStep::WhichNode => if node_presence_spec(out) is Ok {
            r is Run && r->Run_0 is NodeVersion && r->Run_1 is NodeVersion
        } else {
            r is Run && r->Run_0 is SourceNvm && r->Run_1 is SourceNvm
        },
        NodeStep::NodeVersion => if node_version_spec(out) == Ok::<Seq<char>, Seq<char>>(
            NODE_VERSION@,
        ) {
            enters_shim(s1, r)
        } else {
            r is Run && r->Run_0 is SourceNvm && r->Run_1 is SourceNvm
        },
        NodeStep::SourceNvm => if out is LaunchFailed {
            done_err(r, "Failed to source nvm: "@ + failure_text(out))
        } else if !succeeded(out) {
            done_err(r, "Failed to source nvm"@)
        } else if trimmed(stdout_of(out)).len() == 0 {
            done_err(r, "nvm not found after sourcing"@)
        } else {
            r is Run && r->Run_0 is InstallNode && r->Run_1 is InstallNode
        },
        NodeStep::InstallNode => if succeeded(out) {
            enters_shim(s1, r)
        } else if out is LaunchFailed {
            done_err(r, "Failed to run node installation: "@ + failure_text(out))
        } else {
            done_err(r, "Node installation failed: "@ + failure_text(out))
        },
        NodeStep::Shim(st) => exists|sr: ShimNext| shim_step_spec(st, out, sr) && lifted(sr, r),
    }
}

/// Advance the Node machine by what came of its last task. The runtime
/// probes are read by `node_presence_from` and `node_version_from`; where
/// either reports an error, or the version is another release, the runtime is
/// installed afresh. The flags are set only on a successful probe or install.
pub fn node_step(state: &mut EnvironmentState, step: NodeStep, out: &CommandResult) -> (r: NodeNext)
    ensures
        node_step_spec(*old(state), *final(state), step, *out, r),
{
    let ok = succeeded_exec(out);
    match step {
        NodeStep::NvmDir => if ok {
            Next::Run(NodeStep::NvmVersion, Task::NvmVersion)
        } else {
            Next::Run(NodeStep::InstallNvm, Task::InstallNvm)
        },
        NodeStep::NvmVersion => if ok {
            state.nvm_installed = true;
            node_after_nvm(state)
        } else {
            Next::Run(NodeStep::InstallNvm, Task::InstallNvm)
        },
        NodeStep::InstallNvm => if ok {
            state.nvm_installed = true;
            node_after_nvm(state)
        } else {
            match out {
                CommandResult::LaunchFailed(_) => Next::Done(
                    Err(failure_message("Failed to install nvm: ", out)),
                ),
                _ => Next::Done(Err(failure_message("nvm installation failed: ", out))),
            }
        },
        NodeStep::WhichNode => match node_presence_from(out) {
            Ok(()) => Next::Run(NodeStep::NodeVersion, Task::NodeVersion),
            Err(_) => Next::Run(NodeStep::SourceNvm, Task::SourceNvm),
        },
        NodeStep::NodeVersion => {
            let pinned = match node_version_from(out) {
                Ok(version) => str_eq(version.as_str(), NODE_VERSION),
                Err(_) => false,
            };
            if pinned {
                state.node_installed = true;
                start_shim(state)
            } else {
                Next::Run(NodeStep::SourceNvm, Task::SourceNvm)
            }
        },
        NodeStep::SourceNvm => match out {
            CommandResult::LaunchFailed(_) => Next::Done(
                Err(failure_message("Failed to source nvm: ", out)),
            ),
            CommandResult::Exited { success, stdout, .. } => {
                if !*success {
                    Next::Done(Err("Failed to source nvm".to_owned()))
                } else if trim(stdout.as_str()).as_str().unicode_len() == 0 {
                    Next::Done(Err("nvm not found after sourcing".to_owned()))
                } else {
                    Next::Run(NodeStep::InstallNode, Task::InstallNode)
                }
            },
        },
        NodeStep::InstallNode => if ok {
            state.node_installed = true;
            start_shim(state)
        } else {
            match out {
                CommandResult::LaunchFailed(_) => Next::Done(
                    Err(failure_message("Failed to run node installation: ", out)),
                ),
                _ => Next::Done(Err(failure_message("Node installation failed: ", out))),
            }
        },
        NodeStep::Shim(st) => {
            let sr = shim_step(st, out);
            let ghost g = sr;
            let r = lift(sr);
            assert(shim_step_spec(st, *out, g) && lifted(g, r));
            r
        },
    }
}

// ---------------------------------------------------------------------------
// Everything an app configuration needs

/// Where the runtime machine stands: it runs the uv, Node and shim machines
/// one after the other, then looks up uvx. `shim` is the shim path found.
#[derive(Debug)]
pub enum RuntimeStep {
    Uv(UvStep),
    Node(NodeStep),
    Shim(ShimStep),
    Uvx { shim: String },
}

/// The result of the runtime machine: the shim path and the uvx path.
pub type RuntimeNext = Next<RuntimeStep, Result<(String, String), String>>;

pub open spec fn runtime_err(r: RuntimeNext, msg: Seq<char>) -> bool {
    r is Done && r->Done_0 is Err && r->Done_0->Err_0@ == msg
}

/// The runtime machine has the shim path `shim` and turns to uvx.
pub open spec fn at_uvx(state: EnvironmentState, shim: Seq<char>, r: RuntimeNext) -> bool {
    if state.test_mode {
        r is Done && r->Done_0 is Ok && r->Done_0->Ok_0.0@ == shim && r->Done_0->Ok_0.1@
            == "/test/uvx"@
    } else {
        r is Run && r->Run_0 is Uvx && r->Run_0->Uvx_shim@ == shim && r->Run_1 is WhichUvx
    }
}

/// A move of the shim machine seen from the runtime machine.
pub open spec fn lifted_shim(state: EnvironmentState, sr: ShimNext, r: RuntimeNext) -> bool {
    match sr {
        Next::Run(st, t) => r == Next::<RuntimeStep, Result<(String, String), String>>::Run(
            RuntimeStep::Shim(st),
            t,
        ),
        Next::Done(Ok(p)) => at_uvx(state, p@, r),
        Next::Done(Err(e)) => runtime_err(r, "Failed to ensure NPX shim: "@ + e@),
    }
}

/// The runtime machine turns to the shim.
pub open spec fn at_shim(state: EnvironmentState, r: RuntimeNext) -> bool {
    exists|sr: ShimNext| shim_start_spec(state, sr) && lifted_shim(state, sr, r)
}

/// A move of the Node machine seen from the runtime machine.
pub open spec fn lifted_node(state: EnvironmentState, nr: NodeNext, r: RuntimeNext) -> bool {
    match nr {
        Next::Run(st, t) => r == Next::<RuntimeStep, Result<(String, String), String>>::Run(
            RuntimeStep::Node(st),
            t,
        ),
        Next::Done(Ok(_)) => at_shim(state, r),
        Next::Done(Err(e)) => runtime_err(r, "Failed to set up Node environment: "@ + e@),
    }
}

/// The runtime machine turns to Node.
pub open spec fn at_node(state: EnvironmentState, r: RuntimeNext) -> bool {
    exists|nr: NodeNext| node_start_spec(state, nr) && lifted_node(state, nr, r)
}

/// A move of the uv machine seen from the runtime machine.
pub open spec fn lifted_uv(state: EnvironmentState, ur: UvNext, r: RuntimeNext) -> bool {
    match ur {
        Next::Run(st, t) => r == Next::<RuntimeStep, Result<(String, String), String>>::Run(
            RuntimeStep::Uv(st),
            t,
        ),
        Next::Done(Ok(_)) => at_node(state, r),
        Next::Done(Err(e)) => runtime_err(r, "Failed to set up UV environment: "@ + e@),
    }
}

fn runtime_uvx(state: &EnvironmentState, shim: String) -> (r: RuntimeNext)
    ensures
        at_uvx(*state, shim@, r),
{
    match get_uvx_path(state) {
        Next::Done(Ok(p)) => Next::Done(Ok((shim, p))),
        _ => Next::Run(RuntimeStep::Uvx { shim }, Task::WhichUvx),
    }
}

fn runtime_lift_shim(state: &EnvironmentState, sr: ShimNext) -> (r: RuntimeNext)
    ensures
        lifted_shim(*state, sr, r),
{
    match sr {
        Next::Run(st, t) => Next::Run(RuntimeStep::Shim(st), t),
        Next::Done(Ok(p)) => runtime_uvx(state, p),
        Next::Done(Err(e)) => Next::Done(Err(concat_text("Failed to ensure NPX shim: ", e.as_str()))),
    }
}

fn runtime_shim(state: &EnvironmentState) -> (r: RuntimeNext)
    ensures
        at_shim(*state, r),
{
    let sr = ensure_npx_shim(state);
    let ghost g = sr;
    let r = runtime_lift_shim(state, sr);
    assert(shim_start_spec(*state, g) && lifted_shim(*state, g, r));
    r
}

fn runtime_lift_node(state: &EnvironmentState, nr: NodeNext) -> (r: RuntimeNext)
    ensures
        lifted_node(*state, nr, r),
{
    match nr {
        Next::Run(st, t) => Next::Run(RuntimeStep::Node(st), t),
        Next::Done(Ok(_)) => runtime_shim(state),
        Next::Done(Err(e)) => Next::Done(
            Err(concat_text("Failed to set up Node environment: ", e.as_str())),
        ),
    }
}

fn runtime_node(state: &EnvironmentState) -> (r: RuntimeNext)
    ensures
        at_node(*state, r),
{
    let nr = ensure_node_environment(state);
    let ghost g = nr;
    let r = runtime_lift_node(state, nr);
    assert(node_start_spec(*state, g) && lifted_node(*state, g, r));
    r
}

fn runtime_lift_uv(state: &EnvironmentState, ur: UvNext) -> (r: RuntimeNext)
    ensures
        lifted_uv(*state, ur, r),
{
    match ur {
        Next::Run(st, t) => Next::Run(RuntimeStep::Uv(st), t),
        Next::Done(Ok(_)) => runtime_node(state),
        Next::Done(Err(e)) => Next::Done(Err(concat_text("Failed to set up UV environment: ", e.as_str()))),
    }
}

/// Make sure every toolchain is in place and find the two commands that app
/// configurations point at: the shim path and the uvx path. The first
/// failure ends the machine, with the phase that failed named in the error.
pub fn ensure_runtime_paths(state: &EnvironmentState) -> (r: RuntimeNext)
    ensures
        exists|ur: UvNext| uv_start_spec(*state, ur) && lifted_uv(*state, ur, r),
{
    let ur = ensure_uv_environment(state);
    let ghost g = ur;
    let r = runtime_lift_uv(state, ur);
    assert(uv_start_spec(*state, g) && lifted_uv(*state, g, r));
    r
}

/// One move of the runtime machine, from state `s0` to `s1`.
pub open spec fn runtime_step_spec(
    s0: EnvironmentState,
    s1: EnvironmentState,
    step: RuntimeStep,
    out: CommandResult,
    r: RuntimeNext,
) -> bool {
    match step {
        RuntimeStep::Uv(st) => exists|ur: UvNext|
            uv_step_spec(s0, s1, st, out, ur) && lifted_uv(s1, ur, r),
        RuntimeStep::Node(st) => exists|nr: NodeNext|
            node_step_spec(s0, s1, st, out, nr) && lifted_node(s1, nr, r),
        RuntimeStep::Shim(st) => s1 == s0 && exists|sr: ShimNext|
            shim_step_spec(st, out, sr) && lifted_shim(s1, sr, r),
        RuntimeStep::Uvx { shim } => s1 == s0 && match out {
            CommandResult::LaunchFailed(e) => runtime_err(
                r,
                "Failed to get UVX path: "@ + ("Failed to get uvx path: "@ + e@),
            ),
            CommandResult::Exited { success, stdout, .. } => if success {
                r is Done && r->Done_0 is Ok && r->Done_0->Ok_0.0 == shim && r->Done_0->Ok_0.1@
                    == trimmed(stdout@)
            } else {
                runtime_err(r, "Failed to get UVX path: "@ + ("uvx not found in PATH"@))
            },
        },
    }
}

/// Advance the runtime machine by what came of its last task.
pub fn runtime_step(state: &mut EnvironmentState, step: RuntimeStep, out: &CommandResult) -> (r:
    RuntimeNext)
    ensures
        runtime_step_spec(*old(state), *final(state), step, *out, r),
{
    match step {
        RuntimeStep::Uv(st) => {
            let ur = uv_step(state, st, out);
            let ghost g = ur;
            let r = runtime_lift_uv(state, ur);
            assert(uv_step_spec(*old(state), *state, st, *out, g) && lifted_uv(*state, g, r));
            r
        },
        RuntimeStep::Node(st) => {
            let nr = node_step(state, st, out);
            let ghost g = nr;
            let r = runtime_lift_node(state, nr);
            assert(node_step_spec(*old(state), *state, st, *out, g) && lifted_node(*state, g, r));
            r
        },
        RuntimeStep::Shim(st) => {
            let sr = shim_step(st, out);
            let ghost g = sr;
            let r = runtime_lift_shim(state, sr);
            assert(shim_step_spec(st, *out, g) && lifted_shim(*state, g, r));
            r
        },
        RuntimeStep::Uvx { shim } => match uvx_path_from(out) {
            Ok(p) => Next::Done(Ok((shim, p))),
            Err(e) => Next::Done(Err(concat_text("Failed to get UVX path: ", e.as_str()))),
        },
    }
}

// ---------------------------------------------------------------------------
// The bootstrap

/// Whether a call to `ensure_environment` started the bootstrap.
#[derive(Clone, Copy, Debug, PartialEq, Eq, Structural)]
pub enum SetupStart {
    /// This call claimed the bootstrap: the caller runs it in the background.
    Started,
    /// A bootstrap was already started: the caller does nothing.
    AlreadyInProgress,
}

impl SetupStart {
    pub fn message(&self) -> (r: &'static str)
        ensures
            *self == SetupStart::Started ==> r@ == "Environment setup started"@,
            *self == SetupStart::AlreadyInProgress ==> r@ == "Environment setup already in progress"@,
    {
        match self {
            SetupStart::Started => "Environment setup started",
            SetupStart::AlreadyInProgress => "Environment setup already in progress",
        }
    }
}

/// What `ensure_environment` does to the state.
pub open spec fn ensure_environment_post(
    old_state: EnvironmentState,
    new_state: EnvironmentState,
    r: SetupStart,
) -> bool {
    if old_state.setup_started {
        r == SetupStart::AlreadyInProgress && new_state == old_state
    } else {
        r == SetupStart::Started && new_state == (EnvironmentState {
            setup_started: true,
            ..old_state
        })
    }
}

/// Claim the one bootstrap of this state: the first call flips the flag and
/// asks the caller to run the bootstrap; every later call changes nothing.
/// The toolchain flags are left as they are: what is known present stays so.
pub fn ensure_environment(state: &mut EnvironmentState) -> (r: SetupStart)
    ensures
        ensure_environment_post(*old(state), *final(state), r),
{
    if state.setup_started {
        return SetupStart::AlreadyInProgress;
    }
    state.setup_started = true;
    SetupStart::Started
}

/// Once a bootstrap was claimed, a second call right after it is told that one
/// is in progress, and leaves the state as the first call left it: no second
/// bootstrap, and so no second installer, is started.
pub proof fn law_bootstrap_runs_once(
    s0: EnvironmentState,
    s1: EnvironmentState,
    s2: EnvironmentState,
    r1: SetupStart,
    r2: SetupStart,
)
    requires
        ensure_environment_post(s0, s1, r1),
        ensure_environment_post(s1, s2, r2),
    ensures
        r2 == SetupStart::AlreadyInProgress,
        s2 == s1,
        s1.setup_started,
{
}

} // verus!
