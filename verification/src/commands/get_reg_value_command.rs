//! The `get_reg_val` command: reads one registry value — first as a string,
//! then as an unsigned 32-bit integer — template-expands a string value, and
//! binds the result in the variable store. With `can_fail` set, a value that
//! cannot be read is only a warning. Action-invariant.

use vstd::prelude::*;

use crate::action::InstallActionType;
use crate::commands::common::{opt_bool, payload_object, req_expanded_str};
use crate::errors::{spec_err_matches, RunError, SpecErr};
use crate::json::{spec_lookup, spec_members_of, JsonValue, SpecJson};
use crate::platform::{Platform, RunCtx};
use crate::template::{expand_string, spec_expand};
use crate::vars::{ScalarValue, SpecScalar, VarStore, lemma_warnings_append, lemma_warnings_refl, lemma_warnings_trans, warnings_extended};

verus! {

/// How the payload parses: expanded registry path, value name, store key and
/// the `can_fail` flag.
pub open spec fn spec_reg_read_parse(p: SpecJson, m: Map<Seq<char>, SpecScalar>) -> Result<
    (Seq<char>, Seq<char>, Seq<char>, bool),
    SpecErr,
> {
    match p {
        SpecJson::Obj(o) => match spec_lookup(o, "reg_path"@) {
            None => Err(SpecErr::MissingField("reg_path"@)),
            Some(SpecJson::Str(path)) => match spec_lookup(o, "key_name"@) {
                None => Err(SpecErr::MissingField("key_name"@)),
                Some(SpecJson::Str(key)) => match spec_lookup(o, "install_key"@) {
                    None => Err(SpecErr::MissingField("install_key"@)),
                    Some(SpecJson::Str(dest)) => match spec_lookup(o, "can_fail"@) {
                        None => Ok(
                            (
                                spec_expand(path, m).text,
                                spec_expand(key, m).text,
                                spec_expand(dest, m).text,
                                false,
                            ),
                        ),
                        Some(SpecJson::Bool(b)) => Ok(
                            (
                                spec_expand(path, m).text,
                                spec_expand(key, m).text,
                                spec_expand(dest, m).text,
                                b,
                            ),
                        ),
                        Some(_) => Err(SpecErr::WrongFieldType("can_fail"@)),
                    },
                    Some(_) => Err(SpecErr::WrongFieldType("install_key"@)),
                },
                Some(_) => Err(SpecErr::WrongFieldType("key_name"@)),
            },
            Some(_) => Err(SpecErr::WrongFieldType("reg_path"@)),
        },
        _ => Err(SpecErr::PayloadNotObject),
    }
}

/// A parsed registry read.
pub struct GetRegistryValueCommand {
    pub reg_path: String,
    pub key_name: String,
    pub install_key: String,
    pub can_fail: bool,
}

impl GetRegistryValueCommand {
    /// What a failed read comes to: fatal without `can_fail`, a recorded
    /// warning and success with it.
    pub fn handle_err_case(&self, err: &String, warnings: &mut Vec<String>) -> (r: Result<
        bool,
        RunError,
    >)
        ensures
            warnings_extended(old(warnings)@, final(warnings)@),
            self.can_fail ==> r == Ok::<bool, RunError>(true),
            !self.can_fail ==> (r matches Err(e) && (e matches RunError::RegistryFailed(m) && m@
                == err@)) && final(warnings)@ == old(warnings)@,
    {
        if !self.can_fail {
            proof {
                lemma_warnings_refl(warnings@);
            }
            Err(RunError::RegistryFailed(err.clone()))
        } else {
            warnings.push(err.clone());
            proof {
                assert(warnings@.map_values(|w: String| w@) =~= old(warnings)@.map_values(
                    |w: String| w@,
                ) + seq![err@]);
                lemma_warnings_append(old(warnings)@, warnings@, seq![err@]);
            }
            Ok(true)
        }
    }

    /// Binds a value that was read under `install_key`: a string is
    /// template-expanded against the store it is bound into, any other
    /// scalar is stored as it was read.
    pub fn bind_read_value(
        &self,
        read: ScalarValue,
        vars: &mut VarStore,
        warnings: &mut Vec<String>,
    ) -> (r: Result<bool, RunError>)
        ensures
            warnings_extended(old(warnings)@, final(warnings)@),
            r == Ok::<bool, RunError>(true),
            match read@ {
                SpecScalar::Str(s) => final(vars)@ == old(vars)@.insert(
                    self.install_key@,
                    SpecScalar::Str(spec_expand(s, old(vars)@).text),
                ),
                SpecScalar::UInt(n) => final(vars)@ == old(vars)@.insert(
                    self.install_key@,
                    SpecScalar::UInt(n),
                ),
                SpecScalar::Bool(b) => final(vars)@ == old(vars)@.insert(
                    self.install_key@,
                    SpecScalar::Bool(b),
                ),
            },
    {
        proof {
            lemma_warnings_refl(warnings@);
        }
        match read {
            ScalarValue::Str(raw) => {
                let expanded = expand_string(raw.as_str(), vars, warnings);
                proof {
                    lemma_warnings_append(
                        old(warnings)@,
                        warnings@,
                        spec_expand(raw@, old(vars)@).missing,
                    );
                }
                vars.set(self.install_key.as_str(), ScalarValue::Str(expanded));
            },
            other => {
                vars.set(self.install_key.as_str(), other);
            },
        }
        Ok(true)
    }

    /// Reads the value and binds it under `install_key`: a string value is
    /// template-expanded first, an integer value is stored as it is. A read
    /// that failed both ways leaves the store untouched; whatever the
    /// registry answered, the store changes at most at `install_key`.
    pub fn execute<E: Platform>(
        &self,
        _action: &InstallActionType,
        vars: &mut VarStore,
        warnings: &mut Vec<String>,
        env: &mut E,
    ) -> (r: Result<bool, RunError>)
        ensures
            warnings_extended(old(warnings)@, final(warnings)@),
            r matches Err(e) ==> e is RegistryFailed && !self.can_fail,
            r matches Err(e) ==> final(vars)@ == old(vars)@,
            r matches Ok(b) ==> b,
            final(vars)@ == old(vars)@ || exists|v: SpecScalar|
                final(vars)@ == old(vars)@.insert(self.install_key@, v),
    {
        proof {
            lemma_warnings_refl(warnings@);
        }
        match env.reg_read_string(&self.reg_path, &self.key_name) {
            Ok(raw) => self.bind_read_value(ScalarValue::Str(raw), vars, warnings),
            Err(_) => {
                match env.reg_read_dword(&self.reg_path, &self.key_name) {
                    Ok(n) => self.bind_read_value(ScalarValue::UInt(n), vars, warnings),
                    Err(e) => self.handle_err_case(&e, warnings),
                }
            },
        }
    }
}

/// Parses and runs one registry-read node.
pub struct GetRegistryValueCommandExecutor {}

impl GetRegistryValueCommandExecutor {
    /// Parses the payload and reads the registry value into the store.
    #[verifier::rlimit(30)]
    pub fn execute_command<E: Platform>(
        &self,
        json_data: &JsonValue,
        action: &InstallActionType,
        ctx: &mut RunCtx,
        env: &mut E,
    ) -> (r: Result<bool, RunError>)
        ensures
            warnings_extended(old(ctx).warnings@, final(ctx).warnings@),
            final(ctx).seen@ == old(ctx).seen@,
            spec_reg_read_parse(json_data@, old(ctx).vars@) matches Err(kind) ==> (r matches Err(
                e,
            ) && spec_err_matches(e, kind) && final(ctx).vars@ == old(ctx).vars@),
            spec_reg_read_parse(json_data@, old(ctx).vars@) matches Ok(parsed) ==> {
                &&& (r matches Err(e) ==> e is RegistryFailed && !parsed.3)
                &&& (r matches Err(e) ==> final(ctx).vars@ == old(ctx).vars@)
                &&& (r matches Ok(b) ==> b)
                &&& (final(ctx).vars@ == old(ctx).vars@ || exists|v: SpecScalar|
                    final(ctx).vars@ == old(ctx).vars@.insert(parsed.2, v))
            },
    {
        proof {
            lemma_warnings_refl(ctx.warnings@);
        }
        let members = match payload_object(json_data) {
            Ok(m) => m,
            Err(e) => {
                return Err(e);
            },
        };
        let reg_path = match req_expanded_str(members, "reg_path", &ctx.vars, &mut ctx.warnings) {
            Ok(p) => p,
            Err(e) => {
                return Err(e);
            },
        };
        let ghost w1 = ctx.warnings@;
        let key_name = match req_expanded_str(members, "key_name", &ctx.vars, &mut ctx.warnings) {
            Ok(k) => k,
            Err(e) => {
                proof {
                    lemma_warnings_trans(old(ctx).warnings@, w1, ctx.warnings@);
                }
                return Err(e);
            },
        };
        proof {
            lemma_warnings_trans(old(ctx).warnings@, w1, ctx.warnings@);
        }
        let ghost w2 = ctx.warnings@;
        let install_key = match req_expanded_str(
            members,
            "install_key",
            &ctx.vars,
            &mut ctx.warnings,
        ) {
            Ok(k) => k,
            Err(e) => {
                proof {
                    lemma_warnings_trans(old(ctx).warnings@, w2, ctx.warnings@);
                }
                return Err(e);
            },
        };
        proof {
            lemma_warnings_trans(old(ctx).warnings@, w2, ctx.warnings@);
        }
        let can_fail = match opt_bool(members, "can_fail", false) {
            Ok(b) => b,
            Err(e) => {
                return Err(e);
            },
        };
        let cmd = GetRegistryValueCommand { reg_path, key_name, install_key, can_fail };
        let ghost w3 = ctx.warnings@;
        proof {
            let parsed = spec_reg_read_parse(json_data@, old(ctx).vars@);
            assert(parsed is Ok);
            assert(cmd.install_key@ == parsed->Ok_0.2);
            assert(cmd.can_fail == parsed->Ok_0.3);
        }
        let r = cmd.execute(action, &mut ctx.vars, &mut ctx.warnings, env);
        proof {
            lemma_warnings_trans(old(ctx).warnings@, w3, ctx.warnings@);
            if ctx.vars@ != old(ctx).vars@ {
                let v = choose|v: SpecScalar|
                    ctx.vars@ == old(ctx).vars@.insert(cmd.install_key@, v);
                assert(ctx.vars@ == old(ctx).vars@.insert(cmd.install_key@, v));
            }
            assert(r matches Err(e) ==> e is RegistryFailed && !cmd.can_fail);
            assert(r matches Ok(b) ==> b);
        }
        r
    }
}

} // verus!
