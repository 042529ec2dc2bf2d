//! The logic of the `install` command: the probe-then-branch state machine
//! and the plan of actions the surrounding binary carries out. The library
//! decides everything here — which state the probe result leads to, what is
//! downloaded, how the interpreter is invoked, and that the downloaded
//! script is removed afterwards — while the binary only performs the steps.

use vstd::prelude::*;
use vstd::string::*;

use crate::platform::{
    interpreter, interpreter_spec, script_file_name, script_file_name_spec, script_url,
    script_url_spec, Platform,
};

verus! {

/// The two states of the installer: the probe of the external binary leads
/// to exactly one of them.
#[derive(Clone, Copy, Debug, PartialEq, Eq, Structural)]
pub enum InstallState {
    AlreadyInstalled,
    NeedsInstall,
}

/// The state the installer enters after the probe: a successful probe means
/// the toolchain is already installed; a failed spawn or a non-zero exit
/// both degrade to needing an install.
pub fn probe_state(probe_ok: bool) -> (s: InstallState)
    ensures
        s == (if probe_ok {
            InstallState::AlreadyInstalled
        } else {
            InstallState::NeedsInstall
        }),
{
    if probe_ok {
        InstallState::AlreadyInstalled
    } else {
        InstallState::NeedsInstall
    }
}

/// The views of a list of argument strings.
pub open spec fn views_of(args: Seq<String>) -> Seq<Seq<char>> {
    args.map_values(|a: String| a@)
}

/// The arguments that name the script to the interpreter: PowerShell takes
/// the script as a `-File` with its execution policy bypassed, a shell takes
/// the script path alone.
pub open spec fn base_args(p: Platform, script: Seq<char>) -> Seq<Seq<char>> {
    match p {
        Platform::Windows => seq!["-ExecutionPolicy"@, "Bypass"@, "-File"@, script],
        Platform::Unix => seq![script],
    }
}

/// The channel or version selector appended to the script invocation: the
/// LTS channel when the flag is set, else the explicit version if one was
/// given, else nothing — the script then installs its own default.
pub open spec fn selector_args(lts: bool, version: Option<Seq<char>>) -> Seq<Seq<char>> {
    if lts {
        seq!["-Channel"@, "LTS"@]
    } else {
        match version {
            Some(v) => seq!["-Version"@, v],
            None => Seq::empty(),
        }
    }
}

/// The full argument list of the script invocation.
pub open spec fn invocation_args(
    p: Platform,
    script: Seq<char>,
    lts: bool,
    version: Option<Seq<char>>,
) -> Seq<Seq<char>> {
    base_args(p, script) + selector_args(lts, version)
}

/// A process invocation: the program to spawn and its arguments, in order.
#[derive(Debug, Clone, PartialEq, Eq)]
pub struct Invocation {
    pub program: String,
    pub args: Vec<String>,
}

/// Builds the interpreter invocation that runs the install script `script`,
/// with the selector the flags call for. The `lts` flag wins over an
/// explicit version when both are supplied.
pub fn script_invocation(p: Platform, script: &str, lts: bool, version: &Option<String>) -> (inv:
    Invocation)
    ensures
        inv.program@ == interpreter_spec(p),
        views_of(inv.args@) == invocation_args(p, script@, lts, version.deep_view()),
{
    let mut args: Vec<String> = Vec::new();
    match p {
        Platform::Windows => {
            args.push("-ExecutionPolicy".to_owned());
            args.push("Bypass".to_owned());
            args.push("-File".to_owned());
            args.push(script.to_owned());
        },
        Platform::Unix => {
            args.push(script.to_owned());
        },
    }
    if lts {
        args.push("-Channel".to_owned());
        args.push("LTS".to_owned());
    } else {
        match version {
            Some(v) => {
                args.push("-Version".to_owned());
                args.push(v.clone());
            },
            None => {},
        }
    }
    proof {
        assert(views_of(args@) =~= invocation_args(p, script@, lts, version.deep_view()));
    }
    Invocation { program: interpreter(p).to_owned(), args }
}

/// One step of an install run, for the surrounding binary to perform.
#[derive(Debug, Clone, PartialEq, Eq)]
pub enum InstallAction {
    /// Report that the toolchain is already present.
    ReportInstalled,
    /// Fetch `url` and write the body to `file_name` in the working
    /// directory.
    Download { url: String, file_name: String },
    /// Mark `file_name` executable.
    MakeExecutable { file_name: String },
    /// Spawn `program` with `args` and relay its output.
    RunScript { program: String, args: Vec<String> },
    /// Delete `file_name`, whatever the script's exit status was.
    RemoveScriptFile { file_name: String },
}

/// Whether `a` downloads from `url` into `file_name`.
pub open spec fn is_download_of(a: InstallAction, url: Seq<char>, file_name: Seq<char>) -> bool {
    match a {
        InstallAction::Download { url: u, file_name: f } => u@ == url && f@ == file_name,
        _ => false,
    }
}

/// Whether `a` marks `file_name` executable.
pub open spec fn is_make_executable_of(a: InstallAction, file_name: Seq<char>) -> bool {
    match a {
        InstallAction::MakeExecutable { file_name: f } => f@ == file_name,
        _ => false,
    }
}

/// Whether `a` runs `program` with exactly the arguments `args`.
pub open spec fn is_run_of(a: InstallAction, program: Seq<char>, args: Seq<Seq<char>>) -> bool {
    match a {
        InstallAction::RunScript { program: pr, args: ar } => pr@ == program && views_of(ar@)
            == args,
        _ => false,
    }
}

/// Whether `a` removes `file_name`.
pub open spec fn is_cleanup_of(a: InstallAction, file_name: Seq<char>) -> bool {
    match a {
        InstallAction::RemoveScriptFile { file_name: f } => f@ == file_name,
        _ => false,
    }
}

/// The full plan of an `install` run, from the installer state and the
/// flags.
///
/// In the `AlreadyInstalled` state the plan is a single report step:
/// nothing is downloaded, no script is written or run. In the
/// `NeedsInstall` state the plan downloads the platform's install script,
/// on Unix marks it executable, invokes the interpreter with the selector
/// the flags call for, and — last, whatever the flags were and whatever the
/// script will exit with — removes the downloaded script file.
pub fn install_plan(state: InstallState, lts: bool, version: &Option<String>, p: Platform) -> (plan:
    Vec<InstallAction>)
    ensures
        state is AlreadyInstalled ==> plan@.len() == 1 && plan@[0] is ReportInstalled,
        state is AlreadyInstalled ==> forall|i: int|
            0 <= i < plan@.len() ==> !(plan@[i] is Download) && !(plan@[i] is RunScript) && !(
            plan@[i] is MakeExecutable),
        state is NeedsInstall ==> plan@.len() == (if p is Windows {
            3int
        } else {
            4int
        }),
        state is NeedsInstall ==> is_download_of(
            plan@[0],
            script_url_spec(p),
            script_file_name_spec(p),
        ),
        state is NeedsInstall && p is Unix ==> is_make_executable_of(
            plan@[1],
            script_file_name_spec(p),
        ),
        state is NeedsInstall ==> is_run_of(
            plan@[plan@.len() - 2],
            interpreter_spec(p),
            invocation_args(p, script_file_name_spec(p), lts, version.deep_view()),
        ),
        state is NeedsInstall ==> plan@.len() > 0 && is_cleanup_of(
            plan@.last(),
            script_file_name_spec(p),
        ),
{
    let mut plan: Vec<InstallAction> = Vec::new();
    match state {
        InstallState::AlreadyInstalled => {
            plan.push(InstallAction::ReportInstalled);
            return plan;
        },
        InstallState::NeedsInstall => {},
    }
    let name = script_file_name(p);
    plan.push(
        InstallAction::Download { url: script_url(p).to_owned(), file_name: name.to_owned() },
    );
    match p {
        Platform::Unix => {
            plan.push(InstallAction::MakeExecutable { file_name: name.to_owned() });
        },
        Platform::Windows => {},
    }
    let inv = script_invocation(p, name, lts, version);
    plan.push(InstallAction::RunScript { program: inv.program, args: inv.args });
    plan.push(InstallAction::RemoveScriptFile { file_name: name.to_owned() });
    plan
}

/// LTS precedence: with the LTS flag set, the script invocation carries the
/// channel selector, and the version selector flag stands nowhere in its
/// arguments, whatever explicit version was supplied alongside.
pub proof fn lemma_lts_precedence(p: Platform, version: Option<Seq<char>>)
    ensures
        invocation_args(p, script_file_name_spec(p), true, version) == base_args(
            p,
            script_file_name_spec(p),
        ) + seq!["-Channel"@, "LTS"@],
        !invocation_args(p, script_file_name_spec(p), true, version).contains("-Version"@),
{
    reveal_strlit("-Version");
    reveal_strlit("-Channel");
    reveal_strlit("LTS");
    reveal_strlit("-ExecutionPolicy");
    reveal_strlit("Bypass");
    reveal_strlit("-File");
    reveal_strlit("dotnet-install.ps1");
    reveal_strlit("dotnet-install.sh");
    let args = invocation_args(p, script_file_name_spec(p), true, version);
    assert forall|i: int| 0 <= i < args.len() implies args[i] != "-Version"@ by {
        assert("-Channel"@[1] == 'C' && "-Version"@[1] == 'V');
    }
}

} // verus!
