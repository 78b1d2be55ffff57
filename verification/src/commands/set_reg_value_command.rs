//! The `reg_update` / `set_reg_val` command: writes one string value under a
//! registry key. It only acts on install; uninstall and update are vacuous
//! successes.

use vstd::prelude::*;

use crate::action::InstallActionType;
use crate::commands::common::{payload_object, req_expanded_str};
use crate::errors::{spec_err_matches, RunError, SpecErr};
use crate::json::{spec_lookup, spec_members_of, JsonValue, SpecJson};
use crate::platform::{Platform, RegWriteOutcome, RunCtx};
use crate::template::spec_expand;
use crate::vars::{SpecScalar, warnings_extended};

verus! {

/// How the payload parses: expanded registry path, value name and value.
pub open spec fn spec_reg_write_parse(p: SpecJson, m: Map<Seq<char>, SpecScalar>) -> Result<
    (Seq<char>, Seq<char>, Seq<char>),
    SpecErr,
> {
    match p {
        SpecJson::Obj(o) => match spec_lookup(o, "reg_path"@) {
            None => Err(SpecErr::MissingField("reg_path"@)),
            Some(SpecJson::Str(path)) => match spec_lookup(o, "key_name"@) {
                None => Err(SpecErr::MissingField("key_name"@)),
                Some(SpecJson::Str(key)) => match spec_lookup(o, "value"@) {
                    None => Err(SpecErr::MissingField("value"@)),
                    Some(SpecJson::Str(value)) => Ok(
                        (
                            spec_expand(path, m).text,
                            spec_expand(key, m).text,
                            spec_expand(value, m).text,
                        ),
                    ),
                    Some(_) => Err(SpecErr::WrongFieldType("value"@)),
                },
                Some(_) => Err(SpecErr::WrongFieldType("key_name"@)),
            },
            Some(_) => Err(SpecErr::WrongFieldType("reg_path"@)),
        },
        _ => Err(SpecErr::PayloadNotObject),
    }
}

/// A parsed registry write.
pub struct UpdateRegistryCommand {
    pub reg_path: String,
    pub key_name: String,
    pub value: String,
}

impl UpdateRegistryCommand {
    /// Writes the value on install; does nothing otherwise.
    pub fn execute<E: Platform>(&self, action: &InstallActionType, env: &mut E) -> (r: Result<
        bool,
        RunError,
    >)
        ensures
            !(action is INSTALL) ==> r == Ok::<bool, RunError>(true),
            r matches Err(e) ==> e is RegistryFailed,
            r matches Ok(b) ==> b,
    {
        match action {
            InstallActionType::INSTALL => {},
            _ => {
                return Ok(true);
            },
        }
        match env.reg_write_string(&self.reg_path, &self.key_name, &self.value) {
            RegWriteOutcome::Done => Ok(true),
            RegWriteOutcome::OpenFailed(msg) => Err(RunError::RegistryFailed(msg)),
            RegWriteOutcome::WriteFailed(msg) => Err(RunError::RegistryFailed(msg)),
        }
    }
}

/// Parses and runs one registry-write node.
pub struct UpdateRegistryCommandExecutor {}

impl UpdateRegistryCommandExecutor {
    /// Parses the payload and writes the registry value.
    pub fn execute_command<E: Platform>(
        &self,
        json_data: &JsonValue,
        action: &InstallActionType,
        ctx: &mut RunCtx,
        env: &mut E,
    ) -> (r: Result<bool, RunError>)
        ensures
            warnings_extended(old(ctx).warnings@, final(ctx).warnings@),
            final(ctx).vars@ == old(ctx).vars@,
            final(ctx).seen@ == old(ctx).seen@,
            match spec_reg_write_parse(json_data@, old(ctx).vars@) {
                Err(kind) => r matches Err(e) && spec_err_matches(e, kind),
                Ok(_) => {
                    &&& (!(action is INSTALL) ==> r == Ok::<bool, RunError>(true))
                    &&& (r matches Err(e) ==> e is RegistryFailed)
                    &&& (r matches Ok(b) ==> b)
                },
            },
    {
        proof {
            crate::vars::lemma_warnings_refl(ctx.warnings@);
        }
        let members = match payload_object(json_data) {
            Ok(m) => m,
            Err(e) => {
                return Err(e);
            },
        };
        let reg_path = match req_expanded_str(members, "reg_path", &ctx.vars, &mut ctx.warnings) {
            Ok(p) => p,
            Err(e) => {
                return Err(e);
            },
        };
        let ghost w1 = ctx.warnings@;
        let key_name = match req_expanded_str(members, "key_name", &ctx.vars, &mut ctx.warnings) {
            Ok(k) => k,
            Err(e) => {
                proof {
                    crate::vars::lemma_warnings_trans(
                        old(ctx).warnings@,
                        w1,
                        ctx.warnings@,
                    );
                }
                return Err(e);
            },
        };
        proof {
            crate::vars::lemma_warnings_trans(old(ctx).warnings@, w1, ctx.warnings@);
        }
        let ghost w2 = ctx.warnings@;
        let value = match req_expanded_str(members, "value", &ctx.vars, &mut ctx.warnings) {
            Ok(v) => v,
            Err(e) => {
                proof {
                    crate::vars::lemma_warnings_trans(
                        old(ctx).warnings@,
                        w2,
                        ctx.warnings@,
                    );
                }
                return Err(e);
            },
        };
        proof {
            crate::vars::lemma_warnings_trans(old(ctx).warnings@, w2, ctx.warnings@);
        }
        let cmd = UpdateRegistryCommand { reg_path, key_name, value };
        cmd.execute(action, env)
    }
}

} // verus!
