//! The `include` command: renders another configuration file, at most once
//! per canonical path per process run. A path that is not an absolute,
//! existing file is resolved against the base-directory variable `CONF_DIR`;
//! without that variable such a path is a fatal error. The canonical resolved
//! path is checked against — and recorded in — the set of rendered files in
//! one step, which is what keeps diamond-shaped inclusion graphs from running
//! a file twice.

use vstd::prelude::*;
use vstd::string::*;

use crate::action::InstallActionType;
use crate::commands::common::{payload_object, req_expanded_str, spec_req_str};
use crate::errors::{spec_err_matches, RunError, SpecErr};
use crate::json::{JsonValue, SpecJson};
use crate::platform::{Platform, RunCtx};
use crate::vars::{ScalarValue, SpecScalar};

verus! {

/// How the payload parses: the expanded path of the file to render.
pub open spec fn spec_include_parse(p: SpecJson, m: Map<Seq<char>, SpecScalar>) -> Result<
    Seq<char>,
    SpecErr,
> {
    match p {
        SpecJson::Obj(o) => spec_req_str(o, "config_path"@, m),
        _ => Err(SpecErr::PayloadNotObject),
    }
}

/// Whether the store holds a base directory for relative inclusion paths.
pub open spec fn spec_has_conf_dir(m: Map<Seq<char>, SpecScalar>) -> bool {
    m.contains_key("CONF_DIR"@) && m["CONF_DIR"@] is Str
}

/// How an inclusion path resolves: a path that already names an absolute,
/// existing file stands; any other is prefixed with the base directory, and
/// without a base directory it cannot be resolved at all.
pub open spec fn spec_resolve(path: Seq<char>, is_abs_file: bool, m: Map<Seq<char>, SpecScalar>) -> Result<
    Seq<char>,
    SpecErr,
> {
    if is_abs_file {
        Ok(path)
    } else if spec_has_conf_dir(m) {
        Ok(m["CONF_DIR"@]->Str_0 + path)
    } else {
        Err(SpecErr::MissingConfDir)
    }
}

/// Resolves an inclusion path against the base directory; `is_abs_file` says
/// whether the path already names an absolute, existing file.
pub fn resolve_config_path(config_path: String, is_abs_file: bool, vars: &crate::vars::VarStore) -> (r: Result<
    String,
    RunError,
>)
    ensures
        match spec_resolve(config_path@, is_abs_file, vars@) {
            Ok(p) => r matches Ok(s) && s@ == p,
            Err(kind) => r matches Err(e) && spec_err_matches(e, kind),
        },
{
    if is_abs_file {
        Ok(config_path)
    } else {
        match vars.get("CONF_DIR") {
            Some(ScalarValue::Str(dir)) => Ok(dir.clone().concat(config_path.as_str())),
            Some(_) => Err(RunError::MissingConfDir),
            None => Err(RunError::MissingConfDir),
        }
    }
}

/// Parses and runs one `include` node.
pub struct IncludeCommandExecutor {}

impl IncludeCommandExecutor {
    /// Resolves the target path, records it as rendered, and renders its
    /// tree unless some earlier node already rendered the same file.
    pub fn execute_command<E: Platform>(
        &self,
        json_data: &JsonValue,
        action: &InstallActionType,
        ctx: &mut RunCtx,
        env: &mut E,
    ) -> (r: Result<bool, RunError>)
        ensures
            old(ctx).seen@.subset_of(final(ctx).seen@),
            crate::vars::warnings_extended(old(ctx).warnings@, final(ctx).warnings@),
            spec_include_parse(json_data@, old(ctx).vars@) matches Err(kind) ==> (r matches Err(e)
                && spec_err_matches(e, kind) && final(ctx).vars@ == old(ctx).vars@
                && final(ctx).seen@ == old(ctx).seen@),
    {
        proof {
            crate::vars::lemma_warnings_refl(ctx.warnings@);
        }
        let members = match payload_object(json_data) {
            Ok(m) => m,
            Err(e) => {
                return Err(e);
            },
        };
        let config_path = match req_expanded_str(members, "config_path", &ctx.vars, &mut ctx.warnings) {
            Ok(p) => p,
            Err(e) => {
                return Err(e);
            },
        };
        let is_abs_file = env.is_absolute_file(&config_path);
        let resolved: String = match resolve_config_path(config_path, is_abs_file, &ctx.vars) {
            Ok(p) => p,
            Err(e) => {
                return Err(e);
            },
        };
        let canonical: String = match env.canonical_path(&resolved) {
            Some(c) => c,
            None => {
                return Err(RunError::LoadFailed(resolved));
            },
        };
        if ctx.seen.check_and_insert(canonical.as_str()) {
            return Ok(true);
        }
        let tree = match env.load_config(&canonical) {
            Ok(t) => t,
            Err(msg) => {
                return Err(RunError::LoadFailed(msg));
            },
        };
        env.render_included(&tree, action, ctx)
    }
}

} // verus!
