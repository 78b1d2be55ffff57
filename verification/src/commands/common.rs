//! What every command shares: reading typed, template-expanded fields out of
//! a payload object, and the predicate that a function only appends to the
//! warning list.

use vstd::prelude::*;

use crate::errors::{RunError, SpecErr};
use crate::json::{spec_lookup, spec_members_of, JsonMember, JsonValue, SpecJson};
use crate::template::{expand_string, spec_expand};
use crate::vars::{lemma_warnings_append, lemma_warnings_refl, warnings_extended, VarStore};

verus! {

/// A PowerShell prelude that reloads the environment from the registry
/// before the command proper runs; kept verbatim from the tool's scripts.
/// If chocolatey ever moves out of `env:ProgramData\chocolatey`, this path
/// must move with it.
pub const REFRESHENV_COMMAND: &'static str =
    "Set-ExecutionPolicy Bypass -Scope Process; Import-Module $env:ProgramData\\chocolatey\\helpers\\chocolateyProfile.psm1;refreshenv;";

/// How a required, template-expanded string field parses.
pub open spec fn spec_req_str(
    o: Seq<(Seq<char>, SpecJson)>,
    f: Seq<char>,
    m: Map<Seq<char>, crate::vars::SpecScalar>,
) -> Result<Seq<char>, SpecErr> {
    match spec_lookup(o, f) {
        None => Err(SpecErr::MissingField(f)),
        Some(SpecJson::Str(raw)) => Ok(spec_expand(raw, m).text),
        Some(_) => Err(SpecErr::WrongFieldType(f)),
    }
}

/// How an optional, template-expanded string field parses; absent means the
/// empty string.
pub open spec fn spec_opt_str(
    o: Seq<(Seq<char>, SpecJson)>,
    f: Seq<char>,
    m: Map<Seq<char>, crate::vars::SpecScalar>,
) -> Result<Seq<char>, SpecErr> {
    match spec_lookup(o, f) {
        None => Ok(Seq::empty()),
        Some(SpecJson::Str(raw)) => Ok(spec_expand(raw, m).text),
        Some(_) => Err(SpecErr::WrongFieldType(f)),
    }
}

/// How an optional, template-expanded string field parses; absent means none.
pub open spec fn spec_opt_dir(
    o: Seq<(Seq<char>, SpecJson)>,
    f: Seq<char>,
    m: Map<Seq<char>, crate::vars::SpecScalar>,
) -> Result<Option<Seq<char>>, SpecErr> {
    match spec_lookup(o, f) {
        None => Ok(None),
        Some(SpecJson::Str(raw)) => Ok(Some(spec_expand(raw, m).text)),
        Some(_) => Err(SpecErr::WrongFieldType(f)),
    }
}

/// How an optional boolean field with a default parses.
pub open spec fn spec_opt_bool(o: Seq<(Seq<char>, SpecJson)>, f: Seq<char>, default: bool) -> Result<
    bool,
    SpecErr,
> {
    match spec_lookup(o, f) {
        None => Ok(default),
        Some(SpecJson::Bool(b)) => Ok(b),
        Some(_) => Err(SpecErr::WrongFieldType(f)),
    }
}

/// The members of a payload, which must be a JSON object. The members are
/// part of the payload, so recursing into them terminates; the second clause
/// records that.
pub fn payload_object(json_data: &JsonValue) -> (r: Result<&Vec<JsonMember>, RunError>)
    ensures
        match r {
            Ok(members) => json_data@ == SpecJson::Obj(spec_members_of(members@)),
            Err(e) => !(json_data@ is Obj) && e is PayloadNotObject,
        },
        r matches Ok(members) ==> (decreases_to!(*json_data => *members)),
{
    match json_data {
        JsonValue::Object(members) => Ok(members),
        _ => Err(RunError::PayloadNotObject),
    }
}

/// The expansion of a required string field: missing or non-string fields
/// are configuration errors.
pub fn req_expanded_str(
    members: &Vec<JsonMember>,
    field: &str,
    vars: &VarStore,
    warnings: &mut Vec<String>,
) -> (r: Result<String, RunError>)
    ensures
        warnings_extended(old(warnings)@, final(warnings)@),
        match r {
            Ok(s) => spec_lookup(spec_members_of(members@), field@) matches Some(
                SpecJson::Str(raw),
            ) && s@ == spec_expand(raw, vars@).text,
            Err(e) => match e {
                RunError::MissingField(f) => f@ == field@ && spec_lookup(
                    spec_members_of(members@),
                    field@,
                ) is None,
                RunError::WrongFieldType(f) => f@ == field@ && (spec_lookup(
                    spec_members_of(members@),
                    field@,
                ) matches Some(v) && !(v is Str)),
                _ => false,
            },
        },
        r is Err ==> final(warnings)@ == old(warnings)@,
{
    match crate::json::obj_get(members, field) {
        None => Err(RunError::MissingField(field.to_owned())),
        Some(JsonValue::Str(raw)) => {
            let e = expand_string(raw.as_str(), vars, warnings);
            proof {
                lemma_warnings_append(
                    old(warnings)@,
                    warnings@,
                    spec_expand(raw@, vars@).missing,
                );
            }
            Ok(e)
        },
        Some(_) => Err(RunError::WrongFieldType(field.to_owned())),
    }
}

/// The expansion of an optional string field: `None` when absent, an error
/// when present but not a string.
pub fn opt_expanded_str(
    members: &Vec<JsonMember>,
    field: &str,
    vars: &VarStore,
    warnings: &mut Vec<String>,
) -> (r: Result<Option<String>, RunError>)
    ensures
        warnings_extended(old(warnings)@, final(warnings)@),
        match r {
            Ok(Some(s)) => spec_lookup(spec_members_of(members@), field@) matches Some(
                SpecJson::Str(raw),
            ) && s@ == spec_expand(raw, vars@).text,
            Ok(None) => spec_lookup(spec_members_of(members@), field@) is None,
            Err(e) => match e {
                RunError::WrongFieldType(f) => f@ == field@ && (spec_lookup(
                    spec_members_of(members@),
                    field@,
                ) matches Some(v) && !(v is Str)),
                _ => false,
            },
        },
        r is Err ==> final(warnings)@ == old(warnings)@,
{
    match crate::json::obj_get(members, field) {
        None => {
            proof {
                lemma_warnings_refl(warnings@);
            }
            Ok(None)
        },
        Some(JsonValue::Str(raw)) => {
            let e = expand_string(raw.as_str(), vars, warnings);
            proof {
                lemma_warnings_append(
                    old(warnings)@,
                    warnings@,
                    spec_expand(raw@, vars@).missing,
                );
            }
            Ok(Some(e))
        },
        Some(_) => Err(RunError::WrongFieldType(field.to_owned())),
    }
}

/// What `shell_words::split` returns on these characters; `None` stands for
/// its parse error, an unmatched quote. The split is a function of the
/// characters alone.
pub uninterp spec fn shell_split_of(s: Seq<char>) -> Option<Seq<Seq<char>>>;

/// Relies on `shell_words::split`: splits a command line into words by POSIX
/// shell quoting rules, or fails on an unmatched quote.
#[verifier::external_body]
pub(crate) fn shell_split(s: &str) -> (r: Option<Vec<String>>)
    ensures
        match r {
            Some(words) => shell_split_of(s@) == Some(words.deep_view()),
            None => shell_split_of(s@) is None,
        },
{
    match shell_words::split(s) {
        Ok(words) => Some(words),
        Err(_) => None,
    }
}

/// The program and arguments of a command line: the first word of the
/// shell-style split and the remaining words. A line that does not split, or
/// splits into no words, names no program and is a fatal error carrying the
/// line.
pub fn split_command_line(line: &String) -> (r: Result<(String, Vec<String>), RunError>)
    ensures
        match shell_split_of(line@) {
            None => r matches Err(e) && (e matches RunError::CommandLineUnparsable(c) && c@
                == line@),
            Some(w) => if w.len() == 0 {
                r matches Err(e) && (e matches RunError::CommandLineUnparsable(c) && c@ == line@)
            } else {
                r matches Ok(pa) && pa.0@ == w[0] && pa.1.deep_view() == w.skip(1)
            },
        },
{
    let mut words = match shell_split(line.as_str()) {
        None => {
            return Err(RunError::CommandLineUnparsable(line.clone()));
        },
        Some(w) => w,
    };
    if words.len() == 0 {
        assert(words.deep_view().len() == 0);
        return Err(RunError::CommandLineUnparsable(line.clone()));
    }
    let ghost w = words.deep_view();
    let program = words.remove(0);
    proof {
        assert(program@ == w[0]);
        assert(words.deep_view() =~= w.skip(1));
    }
    Ok((program, words))
}

/// An optional boolean field with a default.
pub fn opt_bool(members: &Vec<JsonMember>, field: &str, default: bool) -> (r: Result<
    bool,
    RunError,
>)
    ensures
        match r {
            Ok(b) => match spec_lookup(spec_members_of(members@), field@) {
                Some(SpecJson::Bool(v)) => b == v,
                None => b == default,
                Some(_) => false,
            },
            Err(e) => match e {
                RunError::WrongFieldType(f) => f@ == field@ && (spec_lookup(
                    spec_members_of(members@),
                    field@,
                ) matches Some(v) && !(v is Bool)),
                _ => false,
            },
        },
{
    match crate::json::obj_get(members, field) {
        None => Ok(default),
        Some(JsonValue::Bool(b)) => Ok(*b),
        Some(_) => Err(RunError::WrongFieldType(field.to_owned())),
    }
}

} // verus!
