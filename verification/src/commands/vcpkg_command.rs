//! The `vcpkg` command: drives the vcpkg package manager through PowerShell,
//! with the environment-reloading prelude first. A PowerShell that cannot be
//! spawned counts as a soft failure.

use vstd::prelude::*;
use vstd::string::*;

use crate::action::InstallActionType;
use crate::commands::common::{payload_object, req_expanded_str, spec_req_str, REFRESHENV_COMMAND};
use crate::errors::{spec_err_matches, RunError, SpecErr};
use crate::json::{JsonValue, SpecJson};
use crate::platform::{Platform, RunCtx};
use crate::vars::{SpecScalar, lemma_warnings_refl, warnings_extended};

verus! {

/// The vcpkg command line for one action and module.
pub open spec fn spec_vcpkg_line(action: InstallActionType, module: Seq<char>) -> Seq<char> {
    match action {
        InstallActionType::INSTALL => "vcpkg install "@ + module,
        InstallActionType::UNINSTALL => "vcpkg uninstall "@ + module,
        InstallActionType::UPDATE => "vcpkg upgrade "@ + module,
    }
}

/// How a `vcpkg` payload parses: the expanded module name.
pub open spec fn spec_vcpkg_parse(p: SpecJson, m: Map<Seq<char>, SpecScalar>) -> Result<
    Seq<char>,
    SpecErr,
> {
    match p {
        SpecJson::Obj(o) => spec_req_str(o, "module"@, m),
        _ => Err(SpecErr::PayloadNotObject),
    }
}

/// A parsed `vcpkg` command.
pub struct VcpkgCommand {
    pub module: String,
}

impl VcpkgCommand {
    /// The exact vcpkg line for this module under `action`.
    pub fn command_line(&self, action: &InstallActionType) -> (r: String)
        ensures
            r@ == spec_vcpkg_line(*action, self.module@),
    {
        let prefix: &str = match action {
            InstallActionType::INSTALL => "vcpkg install ",
            InstallActionType::UNINSTALL => "vcpkg uninstall ",
            InstallActionType::UPDATE => "vcpkg upgrade ",
        };
        String::from_str(prefix).concat(self.module.as_str())
    }

    /// Hands the vcpkg line to PowerShell after the environment-reloading
    /// prelude; a PowerShell that cannot be spawned is a soft failure.
    pub fn run_command<E: Platform>(&self, exec: &String, env: &mut E) -> (r: Result<
        bool,
        RunError,
    >)
        ensures
            r is Ok,
    {
        let mut args: Vec<String> = Vec::new();
        args.push(String::from_str("-Command"));
        args.push(String::from_str(REFRESHENV_COMMAND));
        args.push(exec.clone());
        let program = String::from_str("powershell");
        let no_dir: Option<String> = None;
        match env.spawn_wait(&program, &args, &no_dir) {
            Ok(b) => Ok(b),
            Err(_) => Ok(false),
        }
    }

    /// Runs vcpkg with the verb that matches the action.
    pub fn execute<E: Platform>(&self, action: &InstallActionType, env: &mut E) -> (r: Result<
        bool,
        RunError,
    >)
        ensures
            r is Ok,
    {
        let exec = self.command_line(action);
        self.run_command(&exec, env)
    }
}

/// Parses and runs one `vcpkg` node.
pub struct VcpkgCommandExecutor {}

impl VcpkgCommandExecutor {
    /// Parses the payload and drives vcpkg.
    pub fn execute_command<E: Platform>(
        &self,
        json_data: &JsonValue,
        action: &InstallActionType,
        ctx: &mut RunCtx,
        env: &mut E,
    ) -> (r: Result<bool, RunError>)
        ensures
            warnings_extended(old(ctx).warnings@, final(ctx).warnings@),
            final(ctx).vars@ == old(ctx).vars@,
            final(ctx).seen@ == old(ctx).seen@,
            spec_vcpkg_parse(json_data@, old(ctx).vars@) matches Err(kind) ==> (r matches Err(e)
                && spec_err_matches(e, kind)),
            spec_vcpkg_parse(json_data@, old(ctx).vars@) is Ok ==> r is Ok,
    {
        proof {
            lemma_warnings_refl(ctx.warnings@);
        }
        let members = match payload_object(json_data) {
            Ok(m) => m,
            Err(e) => {
                return Err(e);
            },
        };
        let module = match req_expanded_str(members, "module", &ctx.vars, &mut ctx.warnings) {
            Ok(s) => s,
            Err(e) => {
                return Err(e);
            },
        };
        let cmd = VcpkgCommand { module };
        cmd.execute(action, env)
    }
}

} // verus!
