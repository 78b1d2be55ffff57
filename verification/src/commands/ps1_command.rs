//! The `ps1` command: runs one PowerShell command line. The payload carries
//! one line per action, a `refresh_env` flag that prepends an
//! environment-reloading prelude, a `preparse` flag that chooses between
//! shell-style word splitting and handing the line over whole, and an
//! optional working directory. A PowerShell process that cannot be spawned
//! counts as a soft failure, never a fatal error.

use vstd::prelude::*;
use vstd::string::*;

use crate::action::InstallActionType;
use crate::commands::common::{
    opt_bool, opt_expanded_str, payload_object, req_expanded_str, shell_split_of, spec_opt_bool,
    spec_opt_dir, spec_opt_str, spec_req_str, split_command_line, REFRESHENV_COMMAND,
};
use crate::commands::exec_command::spec_selected;
use crate::errors::{spec_err_matches, RunError, SpecErr};
use crate::json::{JsonValue, SpecJson};
use crate::platform::{Platform, RunCtx};
use crate::vars::{SpecScalar, lemma_warnings_refl, lemma_warnings_trans, warnings_extended};

verus! {

/// What a `ps1` payload parses to.
pub struct SpecPs1Command {
    pub install_run: Seq<char>,
    pub uninstall_run: Seq<char>,
    pub update_run: Seq<char>,
    pub refresh_env: bool,
    pub preparse: bool,
    pub dir: Option<Seq<char>>,
}

/// How a `ps1` payload parses.
pub open spec fn spec_ps1_parse(p: SpecJson, m: Map<Seq<char>, SpecScalar>) -> Result<
    SpecPs1Command,
    SpecErr,
> {
    match p {
        SpecJson::Obj(o) => match spec_req_str(o, "install_run"@, m) {
            Err(e) => Err(e),
            Ok(inst) => match spec_opt_str(o, "uninstall_run"@, m) {
                Err(e) => Err(e),
                Ok(unin) => match spec_opt_str(o, "update_run"@, m) {
                    Err(e) => Err(e),
                    Ok(upd) => match spec_opt_bool(o, "refresh_env"@, false) {
                        Err(e) => Err(e),
                        Ok(refresh) => match spec_opt_bool(o, "preparse"@, true) {
                            Err(e) => Err(e),
                            Ok(pre) => match spec_opt_dir(o, "dir"@, m) {
                                Err(e) => Err(e),
                                Ok(dir) => Ok(
                                    SpecPs1Command {
                                        install_run: inst,
                                        uninstall_run: unin,
                                        update_run: upd,
                                        refresh_env: refresh,
                                        preparse: pre,
                                        dir,
                                    },
                                ),
                            },
                        },
                    },
                },
            },
        },
        _ => Err(SpecErr::PayloadNotObject),
    }
}

/// A parsed `ps1` command.
pub struct PowershellCommand {
    pub install_run: String,
    pub uninstall_run: String,
    pub update_run: String,
    pub refresh_env: bool,
    pub preparse: bool,
    pub dir: Option<String>,
}

impl PowershellCommand {
    /// The command line this command runs under `action`.
    pub open spec fn run_of(&self, action: InstallActionType) -> Seq<char> {
        spec_selected(self.install_run@, self.uninstall_run@, self.update_run@, action)
    }

    /// Hands `exec` and `args` to PowerShell, with the environment-reloading
    /// prelude first when `refresh_env` asks for it. A PowerShell that cannot
    /// be spawned is a soft failure, so the result is never fatal.
    pub fn run_command<E: Platform>(
        &self,
        exec: &String,
        args: &Vec<String>,
        env: &mut E,
    ) -> (r: Result<bool, RunError>)
        ensures
            r is Ok,
    {
        let mut full: Vec<String> = Vec::new();
        full.push(String::from_str("-Command"));
        if self.refresh_env {
            full.push(String::from_str(REFRESHENV_COMMAND));
        }
        full.push(exec.clone());
        let mut i: usize = 0;
        while i < args.len()
            decreases args@.len() - i,
        {
            full.push(args[i].clone());
            i = i + 1;
        }
        let program = String::from_str("powershell");
        match env.spawn_wait(&program, &full, &self.dir) {
            Ok(b) => Ok(b),
            Err(_) => Ok(false),
        }
    }

    /// Runs the selected line: an empty line succeeds vacuously, and the
    /// result is fatal exactly when `preparse` is set and the nonempty line
    /// splits into no program — everything else, a failed spawn included,
    /// ends in a soft result.
    pub fn execute<E: Platform>(&self, action: &InstallActionType, env: &mut E) -> (r: Result<
        bool,
        RunError,
    >)
        ensures
            self.run_of(*action).len() == 0 ==> r == Ok::<bool, RunError>(true),
            r is Err <==> (self.preparse && self.run_of(*action).len() > 0 && (shell_split_of(
                self.run_of(*action),
            ) is None || (shell_split_of(self.run_of(*action)) matches Some(w) && w.len() == 0))),
            r matches Err(e) ==> (e matches RunError::CommandLineUnparsable(c) && c@ == self.run_of(
                *action,
            )),
    {
        let exec: &String = match action {
            InstallActionType::INSTALL => &self.install_run,
            InstallActionType::UNINSTALL => &self.uninstall_run,
            InstallActionType::UPDATE => &self.update_run,
        };
        if exec.as_str().is_empty() {
            return Ok(true);
        }
        if self.preparse {
            let (program, args) = match split_command_line(exec) {
                Ok(pa) => pa,
                Err(e) => {
                    return Err(e);
                },
            };
            return self.run_command(&program, &args, env);
        }
        let no_args: Vec<String> = Vec::new();
        self.run_command(exec, &no_args, env)
    }
}

/// Parses and runs one `ps1` node.
pub struct PowershellCommandExecutor {}

impl PowershellCommandExecutor {
    /// Parses the payload and runs the selected PowerShell line.
    pub fn execute_command<E: Platform>(
        &self,
        json_data: &JsonValue,
        action: &InstallActionType,
        ctx: &mut RunCtx,
        env: &mut E,
    ) -> (r: Result<bool, RunError>)
        ensures
            warnings_extended(old(ctx).warnings@, final(ctx).warnings@),
            final(ctx).vars@ == old(ctx).vars@,
            final(ctx).seen@ == old(ctx).seen@,
            spec_ps1_parse(json_data@, old(ctx).vars@) matches Err(kind) ==> (r matches Err(e)
                && spec_err_matches(e, kind)),
            spec_ps1_parse(json_data@, old(ctx).vars@) matches Ok(f) ==> {
                &&& (spec_selected(f.install_run, f.uninstall_run, f.update_run, *action).len()
                    == 0 ==> r == Ok::<bool, RunError>(true))
                &&& (r is Err <==> (f.preparse && spec_selected(
                    f.install_run,
                    f.uninstall_run,
                    f.update_run,
                    *action,
                ).len() > 0 && (shell_split_of(
                    spec_selected(f.install_run, f.uninstall_run, f.update_run, *action),
                ) is None || (shell_split_of(
                    spec_selected(f.install_run, f.uninstall_run, f.update_run, *action),
                ) matches Some(w) && w.len() == 0))))
                &&& (r matches Err(e) ==> (e matches RunError::CommandLineUnparsable(c) && c@
                    == spec_selected(f.install_run, f.uninstall_run, f.update_run, *action)))
            },
    {
        proof {
            lemma_warnings_refl(ctx.warnings@);
        }
        let members = match payload_object(json_data) {
            Ok(m) => m,
            Err(e) => {
                return Err(e);
            },
        };
        let install_run = match req_expanded_str(members, "install_run", &ctx.vars, &mut ctx.warnings) {
            Ok(s) => s,
            Err(e) => {
                return Err(e);
            },
        };
        let ghost w1 = ctx.warnings@;
        let uninstall_run = match opt_expanded_str(members, "uninstall_run", &ctx.vars, &mut ctx.warnings) {
            Ok(Some(s)) => s,
            Ok(None) => String::new(),
            Err(e) => {
                proof {
                    lemma_warnings_trans(old(ctx).warnings@, w1, ctx.warnings@);
                }
                return Err(e);
            },
        };
        proof {
            lemma_warnings_trans(old(ctx).warnings@, w1, ctx.warnings@);
        }
        let ghost w2 = ctx.warnings@;
        let update_run = match opt_expanded_str(members, "update_run", &ctx.vars, &mut ctx.warnings) {
            Ok(Some(s)) => s,
            Ok(None) => String::new(),
            Err(e) => {
                proof {
                    lemma_warnings_trans(old(ctx).warnings@, w2, ctx.warnings@);
                }
                return Err(e);
            },
        };
        proof {
            lemma_warnings_trans(old(ctx).warnings@, w2, ctx.warnings@);
        }
        let refresh_env = match opt_bool(members, "refresh_env", false) {
            Ok(b) => b,
            Err(e) => {
                return Err(e);
            },
        };
        let preparse = match opt_bool(members, "preparse", true) {
            Ok(b) => b,
            Err(e) => {
                return Err(e);
            },
        };
        let ghost w3 = ctx.warnings@;
        let dir = match opt_expanded_str(members, "dir", &ctx.vars, &mut ctx.warnings) {
            Ok(d) => d,
            Err(e) => {
                proof {
                    lemma_warnings_trans(old(ctx).warnings@, w3, ctx.warnings@);
                }
                return Err(e);
            },
        };
        proof {
            lemma_warnings_trans(old(ctx).warnings@, w3, ctx.warnings@);
        }
        let cmd = PowershellCommand {
            install_run,
            uninstall_run,
            update_run,
            refresh_env,
            preparse,
            dir,
        };
        proof {
            let parsed = spec_ps1_parse(json_data@, old(ctx).vars@);
            assert(parsed is Ok);
            assert(cmd.run_of(*action) == spec_selected(
                parsed->Ok_0.install_run,
                parsed->Ok_0.uninstall_run,
                parsed->Ok_0.update_run,
                *action,
            ));
        }
        cmd.execute(action, env)
    }
}

} // verus!
