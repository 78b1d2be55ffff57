//! The `if` command: expands and evaluates one comparison, then renders the
//! `run` subtree when it holds and the `else` subtree when it does not. An
//! omitted subtree is an empty tree, which succeeds vacuously. A condition
//! that does not match the comparison pattern is a fatal error.

use vstd::prelude::*;

use crate::action::InstallActionType;
use crate::commands::common::{payload_object, req_expanded_str, spec_req_str};
use crate::condition::spec_eval_condition;
use crate::errors::{spec_err_matches, RunError, SpecErr};
use crate::json::{obj_get, JsonValue, SpecJson};
use crate::executor_factory::spec_command_of;
use crate::rendering::spec_node_shape;
use crate::platform::{Platform, RunCtx};
use crate::text::chars_of;
use crate::vars::{SpecScalar, VarStore, lemma_warnings_refl, warnings_extended};

verus! {

/// Which subtree a conditional payload selects under the store `m`: `run`
/// when the expanded condition holds, `else` when it does not, nothing when
/// the selected subtree is omitted.
pub open spec fn spec_select_branch(p: SpecJson, m: Map<Seq<char>, SpecScalar>) -> Result<
    Option<SpecJson>,
    SpecErr,
> {
    match p {
        SpecJson::Obj(o) => match spec_req_str(o, "condition"@, m) {
            Err(e) => Err(e),
            Ok(cond) => match spec_eval_condition(cond) {
                None => Err(SpecErr::InvalidCondition(cond)),
                Some(b) => match crate::json::spec_lookup(
                    o,
                    if b {
                        "run"@
                    } else {
                        "else"@
                    },
                ) {
                    None => Ok(None),
                    Some(t) => Ok(Some(t)),
                },
            },
        },
        _ => Err(SpecErr::PayloadNotObject),
    }
}

/// Expands and evaluates the condition of a conditional payload and hands
/// back the subtree it selects, if the payload carries one.
pub fn select_branch<'a>(
    json_data: &'a JsonValue,
    vars: &VarStore,
    warnings: &mut Vec<String>,
) -> (r: Result<Option<&'a JsonValue>, RunError>)
    ensures
        warnings_extended(old(warnings)@, final(warnings)@),
        match spec_select_branch(json_data@, vars@) {
            Err(kind) => r matches Err(e) && spec_err_matches(e, kind),
            Ok(None) => r matches Ok(o) && o is None,
            Ok(Some(t)) => r matches Ok(o) && (o matches Some(v) && v@ == t && (decreases_to!(
                *json_data => *v))),
        },
{
    proof {
        lemma_warnings_refl(warnings@);
    }
    let members = match payload_object(json_data) {
        Ok(m) => m,
        Err(e) => {
            return Err(e);
        },
    };
    let cond = match req_expanded_str(members, "condition", vars, warnings) {
        Ok(c) => c,
        Err(e) => {
            return Err(e);
        },
    };
    let cond_chars = chars_of(cond.as_str());
    let holds = match crate::condition::eval_condition(&cond_chars) {
        Some(b) => b,
        None => {
            return Err(RunError::InvalidCondition(cond));
        },
    };
    let field: &str = if holds {
        "run"
    } else {
        "else"
    };
    match obj_get(members, field) {
        None => Ok(None),
        Some(v) => {
            proof {
                assert(decreases_to!(*json_data => *members));
            }
            Ok(Some(v))
        },
    }
}

/// Parses and runs one `if` node.
pub struct ConditionalCommandExecutor {}

impl ConditionalCommandExecutor {
    /// Evaluates the condition and renders the selected subtree. When a
    /// subtree is selected, the result is its rendering, so the renderer's
    /// guarantees hold of the subtree: a selected non-array is fatal, a
    /// selected empty tree is a vacuous success, and a selected tree whose
    /// head node is malformed or unknown is rejected.
    pub fn execute_command<E: Platform>(
        &self,
        json_data: &JsonValue,
        action: &InstallActionType,
        ctx: &mut RunCtx,
        env: &mut E,
    ) -> (r: Result<bool, RunError>)
        ensures
            old(ctx).seen@.subset_of(final(ctx).seen@),
            warnings_extended(old(ctx).warnings@, final(ctx).warnings@),
            spec_select_branch(json_data@, old(ctx).vars@) matches Err(kind) ==> (r matches Err(e)
                && spec_err_matches(e, kind) && final(ctx).vars@ == old(ctx).vars@
                && final(ctx).seen@ == old(ctx).seen@),
            (spec_select_branch(json_data@, old(ctx).vars@) matches Ok(o) && o is None) ==> (r
                == Ok::<bool, RunError>(true) && final(ctx).vars@ == old(ctx).vars@
                && final(ctx).seen@ == old(ctx).seen@),
            spec_select_branch(json_data@, old(ctx).vars@) matches Ok(o) ==> (o matches Some(t)
                ==> {
                &&& (!(t is Arr) ==> (r matches Err(e) && e is NotAnArray && final(ctx).vars@
                    == old(ctx).vars@ && final(ctx).seen@ == old(ctx).seen@))
                &&& (t matches SpecJson::Arr(els) ==> (els.len() == 0 ==> (r == Ok::<
                    bool,
                    RunError,
                >(true) && final(ctx).vars@ == old(ctx).vars@ && final(ctx).seen@ == old(
                    ctx,
                ).seen@)))
                &&& (t matches SpecJson::Arr(els) ==> ((els.len() > 0 && spec_node_shape(
                    els[0],
                ) is None) ==> (r matches Err(e) && e is InvalidNode && final(ctx).vars@ == old(
                    ctx,
                ).vars@ && final(ctx).seen@ == old(ctx).seen@)))
                &&& (t matches SpecJson::Arr(els) ==> (els.len() > 0 ==> (spec_node_shape(els[0])
                    matches Some(hd) ==> (spec_command_of(hd.0) is None ==> (r matches Err(e) && (
                e matches RunError::UnknownCommand(tg) && tg@ == hd.0) && final(ctx).vars@ == old(
                    ctx,
                ).vars@ && final(ctx).seen@ == old(ctx).seen@)))))
                &&& (r == Ok::<bool, RunError>(true) ==> (t matches SpecJson::Arr(els) ==> forall|
                    i: int,
                |
                    0 <= i < els.len() ==> (#[trigger] spec_node_shape(els[i]) matches Some(hd)
                        && spec_command_of(hd.0) is Some)))
            }),
        decreases json_data, 1int,
    {
        proof {
            crate::vars::lemma_warnings_refl(ctx.warnings@);
        }
        match select_branch(json_data, &ctx.vars, &mut ctx.warnings) {
            Err(e) => Err(e),
            Ok(None) => Ok(true),
            Ok(Some(tree)) => crate::rendering::render(tree, action, ctx, env),
        }
    }
}

} // verus!
