//! The `exec` command: runs one external program. The payload carries one
//! command line per action; the selected line is split into words by shell
//! quoting rules, the first word is the program, the rest its arguments. An
//! empty selected line is a vacuous success.

use vstd::prelude::*;
use vstd::string::*;

use crate::action::InstallActionType;
use crate::commands::common::{
    opt_expanded_str, payload_object, req_expanded_str, shell_split_of, spec_opt_dir,
    spec_opt_str, spec_req_str, split_command_line,
};
use crate::errors::{spec_err_matches, RunError, SpecErr};
use crate::json::{spec_lookup, spec_members_of, JsonValue, SpecJson};
use crate::platform::{Platform, RunCtx};
use crate::template::spec_expand;
use crate::vars::{SpecScalar, lemma_warnings_refl, lemma_warnings_trans, warnings_extended};

verus! {

/// The command line a payload selects for one action.
pub open spec fn spec_selected(
    install: Seq<char>,
    uninstall: Seq<char>,
    update: Seq<char>,
    action: InstallActionType,
) -> Seq<char> {
    match action {
        InstallActionType::INSTALL => install,
        InstallActionType::UNINSTALL => uninstall,
        InstallActionType::UPDATE => update,
    }
}

/// How an `exec` payload parses: the three expanded per-action command lines
/// and the optional working directory. A missing per-action line is the empty
/// line; a missing directory means the process inherits the current one.
pub open spec fn spec_exec_parse(p: SpecJson, m: Map<Seq<char>, SpecScalar>) -> Result<
    (Seq<char>, Seq<char>, Seq<char>, Option<Seq<char>>),
    SpecErr,
> {
    match p {
        SpecJson::Obj(o) => match spec_req_str(o, "install_run"@, m) {
            Err(e) => Err(e),
            Ok(inst) => match spec_opt_str(o, "uninstall_run"@, m) {
                Err(e) => Err(e),
                Ok(unin) => match spec_opt_str(o, "update_run"@, m) {
                    Err(e) => Err(e),
                    Ok(upd) => match spec_opt_dir(o, "dir"@, m) {
                        Err(e) => Err(e),
                        Ok(dir) => Ok((inst, unin, upd, dir)),
                    },
                },
            },
        },
        _ => Err(SpecErr::PayloadNotObject),
    }
}

/// A parsed `exec` command.
pub struct ExecCommand {
    pub install_run: String,
    pub uninstall_run: String,
    pub update_run: String,
    pub dir: Option<String>,
}

impl ExecCommand {
    /// The command line this command runs under `action`.
    pub open spec fn run_of(&self, action: InstallActionType) -> Seq<char> {
        spec_selected(self.install_run@, self.uninstall_run@, self.update_run@, action)
    }

    /// Runs the selected command line: an empty line succeeds vacuously, a
    /// line that shell splitting rejects or leaves without a program is a
    /// fatal error carrying the line — and only such a line is — and a
    /// process that cannot be spawned is fatal too. Only a line that split
    /// into a program can fail to spawn. Otherwise the process's own exit
    /// status is the soft result.
    pub fn execute<E: Platform>(&self, action: &InstallActionType, env: &mut E) -> (r: Result<
        bool,
        RunError,
    >)
        ensures
            self.run_of(*action).len() == 0 ==> r == Ok::<bool, RunError>(true),
            (self.run_of(*action).len() > 0 && shell_split_of(self.run_of(*action)) is None)
                ==> (r matches Err(e) && (e matches RunError::CommandLineUnparsable(c) && c@
                == self.run_of(*action))),
            (self.run_of(*action).len() > 0 && (shell_split_of(self.run_of(*action)) matches Some(
                w,
            ) && w.len() == 0)) ==> (r matches Err(e) && (e
                matches RunError::CommandLineUnparsable(c) && c@ == self.run_of(*action))),
            r matches Err(e) ==> (e is CommandLineUnparsable || e is SpawnFailed),
            r matches Err(e) ==> (e matches RunError::CommandLineUnparsable(c) ==> (c@
                == self.run_of(*action) && (shell_split_of(self.run_of(*action)) is None || (
            shell_split_of(self.run_of(*action)) matches Some(w) && w.len() == 0)))),
            r matches Err(e) ==> (e is SpawnFailed ==> (self.run_of(*action).len() > 0 && (
            shell_split_of(self.run_of(*action)) matches Some(w) && w.len() > 0))),
    {
        let exec: &String = match action {
            InstallActionType::INSTALL => &self.install_run,
            InstallActionType::UNINSTALL => &self.uninstall_run,
            InstallActionType::UPDATE => &self.update_run,
        };
        if exec.as_str().is_empty() {
            return Ok(true);
        }
        let (program, args) = match split_command_line(exec) {
            Ok(pa) => pa,
            Err(e) => {
                return Err(e);
            },
        };
        match env.spawn_wait(&program, &args, &self.dir) {
            Ok(b) => Ok(b),
            Err(msg) => Err(RunError::SpawnFailed(msg)),
        }
    }
}

/// Parses and runs one `exec` node.
pub struct ExecCommandExecutor {}

impl ExecCommandExecutor {
    /// Parses the payload and runs the selected command line.
    pub fn execute_command<E: Platform>(
        &self,
        json_data: &JsonValue,
        action: &InstallActionType,
        ctx: &mut RunCtx,
        env: &mut E,
    ) -> (r: Result<bool, RunError>)
        ensures
            warnings_extended(old(ctx).warnings@, final(ctx).warnings@),
            final(ctx).vars@ == old(ctx).vars@,
            final(ctx).seen@ == old(ctx).seen@,
            spec_exec_parse(json_data@, old(ctx).vars@) matches Err(kind) ==> (r matches Err(e)
                && spec_err_matches(e, kind)),
            spec_exec_parse(json_data@, old(ctx).vars@) matches Ok(f) ==> {
                &&& (spec_selected(f.0, f.1, f.2, *action).len() == 0 ==> r == Ok::<
                    bool,
                    RunError,
                >(true))
                &&& (r matches Err(e) ==> (e is CommandLineUnparsable || e is SpawnFailed))
                &&& (r matches Err(e) ==> (e matches RunError::CommandLineUnparsable(c) ==> (c@
                    == spec_selected(f.0, f.1, f.2, *action) && (shell_split_of(
                    spec_selected(f.0, f.1, f.2, *action),
                ) is None || (shell_split_of(spec_selected(f.0, f.1, f.2, *action)) matches Some(w)
                    && w.len() == 0)))))
                &&& (r matches Err(e) ==> (e is SpawnFailed ==> (shell_split_of(
                    spec_selected(f.0, f.1, f.2, *action),
                ) matches Some(w) && w.len() > 0)))
            },
    {
        proof {
            lemma_warnings_refl(ctx.warnings@);
        }
        let members = match payload_object(json_data) {
            Ok(m) => m,
            Err(e) => {
                return Err(e);
            },
        };
        let install_run = match req_expanded_str(members, "install_run", &ctx.vars, &mut ctx.warnings) {
            Ok(s) => s,
            Err(e) => {
                return Err(e);
            },
        };
        let ghost w1 = ctx.warnings@;
        let uninstall_run = match opt_expanded_str(members, "uninstall_run", &ctx.vars, &mut ctx.warnings) {
            Ok(Some(s)) => s,
            Ok(None) => String::new(),
            Err(e) => {
                proof {
                    lemma_warnings_trans(old(ctx).warnings@, w1, ctx.warnings@);
                }
                return Err(e);
            },
        };
        proof {
            lemma_warnings_trans(old(ctx).warnings@, w1, ctx.warnings@);
        }
        let ghost w2 = ctx.warnings@;
        let update_run = match opt_expanded_str(members, "update_run", &ctx.vars, &mut ctx.warnings) {
            Ok(Some(s)) => s,
            Ok(None) => String::new(),
            Err(e) => {
                proof {
                    lemma_warnings_trans(old(ctx).warnings@, w2, ctx.warnings@);
                }
                return Err(e);
            },
        };
        proof {
            lemma_warnings_trans(old(ctx).warnings@, w2, ctx.warnings@);
        }
        let ghost w3 = ctx.warnings@;
        let dir = match opt_expanded_str(members, "dir", &ctx.vars, &mut ctx.warnings) {
            Ok(d) => d,
            Err(e) => {
                proof {
                    lemma_warnings_trans(old(ctx).warnings@, w3, ctx.warnings@);
                }
                return Err(e);
            },
        };
        proof {
            lemma_warnings_trans(old(ctx).warnings@, w3, ctx.warnings@);
        }
        let cmd = ExecCommand { install_run, uninstall_run, update_run, dir };
        proof {
            let parsed = spec_exec_parse(json_data@, old(ctx).vars@);
            assert(parsed is Ok);
            assert(cmd.run_of(*action) == spec_selected(
                parsed->Ok_0.0,
                parsed->Ok_0.1,
                parsed->Ok_0.2,
                *action,
            ));
        }
        cmd.execute(action, env)
    }
}

} // verus!
