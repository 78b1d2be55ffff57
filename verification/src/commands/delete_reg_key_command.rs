//! The `delete_reg_key` command: deletes one registry value. A key or value
//! that is already absent counts as success. It only acts on install.

use vstd::prelude::*;

use crate::action::InstallActionType;
use crate::commands::common::{payload_object, req_expanded_str};
use crate::errors::{spec_err_matches, RunError, SpecErr};
use crate::json::{spec_lookup, spec_members_of, JsonValue, SpecJson};
use crate::platform::{Platform, RegDeleteOutcome, RunCtx};
use crate::template::spec_expand;
use crate::vars::{SpecScalar, warnings_extended};

verus! {

/// How the payload parses: expanded registry path and value name.
pub open spec fn spec_reg_delete_parse(p: SpecJson, m: Map<Seq<char>, SpecScalar>) -> Result<
    (Seq<char>, Seq<char>),
    SpecErr,
> {
    match p {
        SpecJson::Obj(o) => match spec_lookup(o, "reg_path"@) {
            None => Err(SpecErr::MissingField("reg_path"@)),
            Some(SpecJson::Str(path)) => match spec_lookup(o, "key_name"@) {
                None => Err(SpecErr::MissingField("key_name"@)),
                Some(SpecJson::Str(key)) => Ok(
                    (spec_expand(path, m).text, spec_expand(key, m).text),
                ),
                Some(_) => Err(SpecErr::WrongFieldType("key_name"@)),
            },
            Some(_) => Err(SpecErr::WrongFieldType("reg_path"@)),
        },
        _ => Err(SpecErr::PayloadNotObject),
    }
}

/// A parsed registry deletion.
pub struct DeleteRegistryValueCommand {
    pub reg_path: String,
    pub key_name: String,
}

/// What a deletion outcome comes to: a key or value that is already absent
/// is the desired state and succeeds; a key or value that could not be
/// opened or deleted for any other reason is fatal, with the platform's
/// reason.
pub fn deletion_result(outcome: RegDeleteOutcome) -> (r: Result<bool, RunError>)
    ensures
        match outcome {
            RegDeleteOutcome::Done => r == Ok::<bool, RunError>(true),
            RegDeleteOutcome::KeyMissing => r == Ok::<bool, RunError>(true),
            RegDeleteOutcome::ValueMissing => r == Ok::<bool, RunError>(true),
            RegDeleteOutcome::OpenFailed(m) => r matches Err(e) && (e
                matches RunError::RegistryFailed(msg) && msg@ == m@),
            RegDeleteOutcome::DeleteFailed(m) => r matches Err(e) && (e
                matches RunError::RegistryFailed(msg) && msg@ == m@),
        },
{
    match outcome {
        RegDeleteOutcome::Done => Ok(true),
        RegDeleteOutcome::KeyMissing => Ok(true),
        RegDeleteOutcome::ValueMissing => Ok(true),
        RegDeleteOutcome::OpenFailed(msg) => Err(RunError::RegistryFailed(msg)),
        RegDeleteOutcome::DeleteFailed(msg) => Err(RunError::RegistryFailed(msg)),
    }
}

impl DeleteRegistryValueCommand {
    /// Deletes the value on install; does nothing otherwise. An absent key
    /// or value is already the desired state and succeeds.
    pub fn execute<E: Platform>(&self, action: &InstallActionType, env: &mut E) -> (r: Result<
        bool,
        RunError,
    >)
        ensures
            !(action is INSTALL) ==> r == Ok::<bool, RunError>(true),
            r matches Err(e) ==> e is RegistryFailed,
            r matches Ok(b) ==> b,
    {
        match action {
            InstallActionType::INSTALL => {},
            _ => {
                return Ok(true);
            },
        }
        deletion_result(env.reg_delete_value(&self.reg_path, &self.key_name))
    }
}

/// Parses and runs one registry-delete node.
pub struct DeleteRegistryValueCommandExecutor {}

impl DeleteRegistryValueCommandExecutor {
    /// Parses the payload and deletes the registry value.
    pub fn execute_command<E: Platform>(
        &self,
        json_data: &JsonValue,
        action: &InstallActionType,
        ctx: &mut RunCtx,
        env: &mut E,
    ) -> (r: Result<bool, RunError>)
        ensures
            warnings_extended(old(ctx).warnings@, final(ctx).warnings@),
            final(ctx).vars@ == old(ctx).vars@,
            final(ctx).seen@ == old(ctx).seen@,
            match spec_reg_delete_parse(json_data@, old(ctx).vars@) {
                Err(kind) => r matches Err(e) && spec_err_matches(e, kind),
                Ok(_) => {
                    &&& (!(action is INSTALL) ==> r == Ok::<bool, RunError>(true))
                    &&& (r matches Err(e) ==> e is RegistryFailed)
                    &&& (r matches Ok(b) ==> b)
                },
            },
    {
        proof {
            crate::vars::lemma_warnings_refl(ctx.warnings@);
        }
        let members = match payload_object(json_data) {
            Ok(m) => m,
            Err(e) => {
                return Err(e);
            },
        };
        let reg_path = match req_expanded_str(members, "reg_path", &ctx.vars, &mut ctx.warnings) {
            Ok(p) => p,
            Err(e) => {
                return Err(e);
            },
        };
        let ghost w1 = ctx.warnings@;
        let key_name = match req_expanded_str(members, "key_name", &ctx.vars, &mut ctx.warnings) {
            Ok(k) => k,
            Err(e) => {
                proof {
                    crate::vars::lemma_warnings_trans(
                        old(ctx).warnings@,
                        w1,
                        ctx.warnings@,
                    );
                }
                return Err(e);
            },
        };
        proof {
            crate::vars::lemma_warnings_trans(old(ctx).warnings@, w1, ctx.warnings@);
        }
        let cmd = DeleteRegistryValueCommand { reg_path, key_name };
        cmd.execute(action, env)
    }
}

} // verus!
