//! The `winget` command: drives the Windows package manager through the
//! shell. Winget is known to report failure for benign conditions, so the
//! command reports success whatever the tool's exit status; only a shell that
//! cannot be spawned at all, or a host that is not Windows, is an error.

use vstd::prelude::*;
use vstd::string::*;

use crate::action::InstallActionType;
use crate::commands::common::{payload_object, req_expanded_str, spec_req_str};
use crate::errors::{spec_err_matches, RunError, SpecErr};
use crate::json::{JsonValue, SpecJson};
use crate::platform::{Platform, RunCtx};
use crate::vars::{SpecScalar, lemma_warnings_refl, warnings_extended};

verus! {

/// The winget verb for one action.
pub open spec fn spec_winget_verb(action: InstallActionType) -> Seq<char> {
    match action {
        InstallActionType::INSTALL => "install"@,
        InstallActionType::UNINSTALL => "uninstall"@,
        InstallActionType::UPDATE => "update"@,
    }
}

/// The full shell line the command hands to `cmd /C`.
pub open spec fn spec_winget_line(action: InstallActionType, package: Seq<char>) -> Seq<char> {
    "winget "@ + spec_winget_verb(action) + " --accept-package-agreements "@ + package
}

/// How a `winget` payload parses: the expanded package name.
pub open spec fn spec_winget_parse(p: SpecJson, m: Map<Seq<char>, SpecScalar>) -> Result<
    Seq<char>,
    SpecErr,
> {
    match p {
        SpecJson::Obj(o) => spec_req_str(o, "package"@, m),
        _ => Err(SpecErr::PayloadNotObject),
    }
}

/// A parsed `winget` command.
pub struct WingetCommand {
    pub package: String,
}

impl WingetCommand {
    /// The exact shell line for this package under `action`.
    pub fn command_line(&self, action: &InstallActionType) -> (r: String)
        ensures
            r@ == spec_winget_line(*action, self.package@),
    {
        let verb: &str = match action {
            InstallActionType::INSTALL => "install",
            InstallActionType::UNINSTALL => "uninstall",
            InstallActionType::UPDATE => "update",
        };
        String::from_str("winget ").concat(verb).concat(" --accept-package-agreements ").concat(
            self.package.as_str(),
        )
    }

    /// Runs winget through the shell, given whether this host is Windows:
    /// off Windows the command is refused, exactly then; on Windows success
    /// is reported whatever the tool's exit status, and only a shell that
    /// cannot be spawned is an error.
    pub fn run_on_host<E: Platform>(
        &self,
        on_windows: bool,
        action: &InstallActionType,
        env: &mut E,
    ) -> (r: Result<bool, RunError>)
        ensures
            (r matches Err(e) && e is UnsupportedPlatform) <==> !on_windows,
            r matches Ok(b) ==> b,
            r matches Err(e) ==> (e is UnsupportedPlatform || e is SpawnFailed),
    {
        let line = self.command_line(action);
        if !on_windows {
            return Err(RunError::UnsupportedPlatform);
        }
        let mut args: Vec<String> = Vec::new();
        args.push(String::from_str("/C"));
        args.push(line);
        let program = String::from_str("cmd");
        let no_dir: Option<String> = None;
        match env.spawn_wait(&program, &args, &no_dir) {
            Ok(_) => Ok(true),
            Err(msg) => Err(RunError::SpawnFailed(msg)),
        }
    }

    /// Asks the platform whether this host is Windows and runs winget.
    pub fn execute<E: Platform>(&self, action: &InstallActionType, env: &mut E) -> (r: Result<
        bool,
        RunError,
    >)
        ensures
            r matches Ok(b) ==> b,
            r matches Err(e) ==> (e is UnsupportedPlatform || e is SpawnFailed),
    {
        let on_windows = env.is_windows();
        self.run_on_host(on_windows, action, env)
    }
}

/// Parses and runs one `winget` node.
pub struct WingetCommandExecutor {}

impl WingetCommandExecutor {
    /// Parses the payload and drives the package manager.
    pub fn execute_command<E: Platform>(
        &self,
        json_data: &JsonValue,
        action: &InstallActionType,
        ctx: &mut RunCtx,
        env: &mut E,
    ) -> (r: Result<bool, RunError>)
        ensures
            warnings_extended(old(ctx).warnings@, final(ctx).warnings@),
            final(ctx).vars@ == old(ctx).vars@,
            final(ctx).seen@ == old(ctx).seen@,
            spec_winget_parse(json_data@, old(ctx).vars@) matches Err(kind) ==> (r matches Err(e)
                && spec_err_matches(e, kind)),
            spec_winget_parse(json_data@, old(ctx).vars@) is Ok ==> {
                &&& (r matches Ok(b) ==> b)
                &&& (r matches Err(e) ==> (e is UnsupportedPlatform || e is SpawnFailed))
            },
    {
        proof {
            lemma_warnings_refl(ctx.warnings@);
        }
        let members = match payload_object(json_data) {
            Ok(m) => m,
            Err(e) => {
                return Err(e);
            },
        };
        let package = match req_expanded_str(members, "package", &ctx.vars, &mut ctx.warnings) {
            Ok(s) => s,
            Err(e) => {
                return Err(e);
            },
        };
        let cmd = WingetCommand { package };
        cmd.execute(action, env)
    }
}

} // verus!
