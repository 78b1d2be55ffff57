//! The `dir` command: makes sure a directory exists, optionally wiping it
//! first. It only acts on install; uninstall and update are vacuous successes.

use vstd::prelude::*;

use crate::action::InstallActionType;
use crate::commands::common::{opt_bool, payload_object, req_expanded_str};
use crate::errors::{spec_err_matches, RunError, SpecErr};
use crate::json::{spec_lookup, spec_members_of, JsonValue, SpecJson};
use crate::platform::{DirOutcome, Platform, RunCtx};
use crate::template::spec_expand;
use crate::vars::{SpecScalar, warnings_extended};

verus! {

/// How a `dir` payload parses: the expanded path and the overwrite flag.
pub open spec fn spec_dir_parse(p: SpecJson, m: Map<Seq<char>, SpecScalar>) -> Result<
    (Seq<char>, bool),
    SpecErr,
> {
    match p {
        SpecJson::Obj(o) => match spec_lookup(o, "path"@) {
            None => Err(SpecErr::MissingField("path"@)),
            Some(SpecJson::Str(raw)) => match spec_lookup(o, "should_overwrite"@) {
                None => Ok((spec_expand(raw, m).text, false)),
                Some(SpecJson::Bool(b)) => Ok((spec_expand(raw, m).text, b)),
                Some(_) => Err(SpecErr::WrongFieldType("should_overwrite"@)),
            },
            Some(_) => Err(SpecErr::WrongFieldType("path"@)),
        },
        _ => Err(SpecErr::PayloadNotObject),
    }
}

/// A parsed `dir` command.
pub struct DirCommand {
    pub path: String,
    pub should_overwrite: bool,
}

/// What a creation outcome comes to: an existing directory is already the
/// desired state and succeeds; only a creation that failed outright is
/// fatal, and it carries the platform's reason.
pub fn creation_result(outcome: DirOutcome) -> (r: Result<bool, RunError>)
    ensures
        match outcome {
            DirOutcome::Done => r == Ok::<bool, RunError>(true),
            DirOutcome::AlreadyThere => r == Ok::<bool, RunError>(true),
            DirOutcome::Failed(m) => r matches Err(e) && (e matches RunError::DirFailed(msg)
                && msg@ == m@),
        },
{
    match outcome {
        DirOutcome::Done => Ok(true),
        DirOutcome::AlreadyThere => Ok(true),
        DirOutcome::Failed(msg) => Err(RunError::DirFailed(msg)),
    }
}

impl DirCommand {
    /// Creates the directory on install; does nothing otherwise. A failure
    /// to remove or create is fatal; a directory that already exists is fine.
    pub fn execute<E: Platform>(&self, action: &InstallActionType, env: &mut E) -> (r: Result<
        bool,
        RunError,
    >)
        ensures
            !(action is INSTALL) ==> r == Ok::<bool, RunError>(true),
            r matches Err(e) ==> e is DirFailed,
            r matches Ok(b) ==> b,
    {
        match action {
            InstallActionType::INSTALL => {},
            _ => {
                return Ok(true);
            },
        }
        if self.should_overwrite {
            match env.remove_dir_all(&self.path) {
                Ok(()) => {},
                Err(msg) => {
                    return Err(RunError::DirFailed(msg));
                },
            }
        }
        creation_result(env.create_dir_all(&self.path))
    }
}

/// Parses and runs one `dir` node.
pub struct DirCommandExecutor {}

impl DirCommandExecutor {
    /// Parses the payload and ensures the directory exists.
    pub fn execute_command<E: Platform>(
        &self,
        json_data: &JsonValue,
        action: &InstallActionType,
        ctx: &mut RunCtx,
        env: &mut E,
    ) -> (r: Result<bool, RunError>)
        ensures
            warnings_extended(old(ctx).warnings@, final(ctx).warnings@),
            final(ctx).vars@ == old(ctx).vars@,
            final(ctx).seen@ == old(ctx).seen@,
            match spec_dir_parse(json_data@, old(ctx).vars@) {
                Err(kind) => r matches Err(e) && spec_err_matches(e, kind),
                Ok((path, ow)) => {
                    &&& (!(action is INSTALL) ==> r == Ok::<bool, RunError>(true))
                    &&& (r matches Err(e) ==> e is DirFailed)
                    &&& (r matches Ok(b) ==> b)
                },
            },
    {
        proof {
            crate::vars::lemma_warnings_refl(ctx.warnings@);
        }
        let members = match payload_object(json_data) {
            Ok(m) => m,
            Err(e) => {
                return Err(e);
            },
        };
        let path = match req_expanded_str(members, "path", &ctx.vars, &mut ctx.warnings) {
            Ok(p) => p,
            Err(e) => {
                return Err(e);
            },
        };
        let should_overwrite = match opt_bool(members, "should_overwrite", false) {
            Ok(b) => b,
            Err(e) => {
                return Err(e);
            },
        };
        let cmd = DirCommand { path, should_overwrite };
        cmd.execute(action, env)
    }
}

} // verus!
