//! The `set_var` command: binds one variable in the store. The value keeps
//! its JSON type — string, unsigned integer or boolean — and a string value
//! is template-expanded before it is stored. Action-invariant.

use vstd::prelude::*;
use vstd::string::*;

use crate::action::InstallActionType;
use crate::commands::common::{payload_object};
use crate::errors::{spec_err_matches, RunError, SpecErr};
use crate::json::{obj_get, spec_lookup, spec_members_of, JsonValue, SpecJson};
use crate::platform::RunCtx;
use crate::template::spec_expand;
use crate::vars::{ScalarValue, SpecScalar, VarStore, warnings_extended};

verus! {

/// How a `set_var` payload parses: which key is bound to which value, given
/// the store the value's template is expanded against.
pub open spec fn spec_set_var_parse(p: SpecJson, m: Map<Seq<char>, SpecScalar>) -> Result<
    (Seq<char>, SpecScalar),
    SpecErr,
> {
    match p {
        SpecJson::Obj(o) => match spec_lookup(o, "value"@) {
            None => Err(SpecErr::MissingField("value"@)),
            Some(SpecJson::Bool(b)) => match spec_lookup(o, "key"@) {
                Some(SpecJson::Str(k)) => Ok((k, SpecScalar::Bool(b))),
                None => Err(SpecErr::MissingField("key"@)),
                Some(_) => Err(SpecErr::WrongFieldType("key"@)),
            },
            Some(SpecJson::UInt(n)) => match spec_lookup(o, "key"@) {
                Some(SpecJson::Str(k)) => Ok((k, SpecScalar::UInt(n))),
                None => Err(SpecErr::MissingField("key"@)),
                Some(_) => Err(SpecErr::WrongFieldType("key"@)),
            },
            Some(SpecJson::Str(s)) => match spec_lookup(o, "key"@) {
                Some(SpecJson::Str(k)) => Ok((k, SpecScalar::Str(spec_expand(s, m).text))),
                None => Err(SpecErr::MissingField("key"@)),
                Some(_) => Err(SpecErr::WrongFieldType("key"@)),
            },
            Some(SpecJson::UnsupportedNumber) => Err(SpecErr::WrongFieldType("value"@)),
            Some(_) => Err(SpecErr::UnsupportedValueType),
        },
        _ => Err(SpecErr::PayloadNotObject),
    }
}

/// A `set_var` whose value is a string, already template-expanded.
pub struct SetStringVarCommand {
    pub key: String,
    pub value: String,
}

impl SetStringVarCommand {
    /// Binds the key to the string value, whatever the action.
    pub fn execute(&self, _action: &InstallActionType, vars: &mut VarStore) -> (r: Result<
        bool,
        RunError,
    >)
        ensures
            r == Ok::<bool, RunError>(true),
            final(vars)@ == old(vars)@.insert(self.key@, SpecScalar::Str(self.value@)),
    {
        vars.set(self.key.as_str(), ScalarValue::Str(self.value.clone()));
        Ok(true)
    }
}

/// Dispatches a `set_var` payload by the JSON type of its `value` field.
pub struct SetVarCommandExecutor {}

impl SetVarCommandExecutor {
    /// Parses the payload and binds the variable.
    pub fn execute_command(
        &self,
        json_data: &JsonValue,
        action: &InstallActionType,
        ctx: &mut RunCtx,
    ) -> (r: Result<bool, RunError>)
        ensures
            warnings_extended(old(ctx).warnings@, final(ctx).warnings@),
            final(ctx).seen@ == old(ctx).seen@,
            match spec_set_var_parse(json_data@, old(ctx).vars@) {
                Ok((k, v)) => r == Ok::<bool, RunError>(true) && final(ctx).vars@ == old(
                    ctx,
                ).vars@.insert(k, v),
                Err(kind) => (r matches Err(e) && spec_err_matches(e, kind)) && final(ctx).vars@
                    == old(ctx).vars@,
            },
    {
        proof {
            crate::vars::lemma_warnings_refl(ctx.warnings@);
        }
        let members = match payload_object(json_data) {
            Ok(m) => m,
            Err(e) => {
                return Err(e);
            },
        };
        let value = match obj_get(members, "value") {
            Some(v) => v,
            None => {
                return Err(RunError::MissingField(String::from_str("value")));
            },
        };
        let key: String = match obj_get(members, "key") {
            Some(JsonValue::Str(k)) => k.clone(),
            Some(_) => {
                match value {
                    JsonValue::Bool(_) => {
                        return Err(RunError::WrongFieldType(String::from_str("key")));
                    },
                    JsonValue::UInt(_) => {
                        return Err(RunError::WrongFieldType(String::from_str("key")));
                    },
                    JsonValue::Str(_) => {
                        return Err(RunError::WrongFieldType(String::from_str("key")));
                    },
                    JsonValue::UnsupportedNumber => {
                        return Err(RunError::WrongFieldType(String::from_str("value")));
                    },
                    _ => {
                        return Err(RunError::UnsupportedValueType);
                    },
                }
            },
            None => {
                match value {
                    JsonValue::Bool(_) => {
                        return Err(RunError::MissingField(String::from_str("key")));
                    },
                    JsonValue::UInt(_) => {
                        return Err(RunError::MissingField(String::from_str("key")));
                    },
                    JsonValue::Str(_) => {
                        return Err(RunError::MissingField(String::from_str("key")));
                    },
                    JsonValue::UnsupportedNumber => {
                        return Err(RunError::WrongFieldType(String::from_str("value")));
                    },
                    _ => {
                        return Err(RunError::UnsupportedValueType);
                    },
                }
            },
        };
        match value {
            JsonValue::Bool(b) => {
                ctx.vars.set(key.as_str(), ScalarValue::Bool(*b));
                Ok(true)
            },
            JsonValue::UInt(n) => {
                ctx.vars.set(key.as_str(), ScalarValue::UInt(*n));
                Ok(true)
            },
            JsonValue::Str(raw) => {
                let expanded = crate::template::expand_string(
                    raw.as_str(),
                    &ctx.vars,
                    &mut ctx.warnings,
                );
                proof {
                    crate::vars::lemma_warnings_append(
                        old(ctx).warnings@,
                        ctx.warnings@,
                        spec_expand(raw@, old(ctx).vars@).missing,
                    );
                }
                let cmd = SetStringVarCommand { key, value: expanded };
                cmd.execute(action, &mut ctx.vars)
            },
            JsonValue::UnsupportedNumber => Err(RunError::WrongFieldType(String::from_str("value"))),
            _ => Err(RunError::UnsupportedValueType),
        }
    }
}

} // verus!
