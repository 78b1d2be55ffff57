//! The `paralel` command: fans the elements of its `run` array out to
//! concurrently scheduled tasks, each rendering its element as a one-node
//! tree, waits for every task whatever the others did, and folds the
//! outcomes: any hard error wins (the first one, with its task position),
//! otherwise any soft failure makes the whole node a soft failure, otherwise
//! the node succeeds. Every element is validated before any task starts.

use vstd::prelude::*;
use vstd::string::*;

use crate::action::InstallActionType;
use crate::commands::common::payload_object;
use crate::errors::{spec_err_matches, RunError, SpecErr};
use crate::json::{json_clone, obj_get, spec_arr_of, JsonValue, SpecJson};
use crate::platform::{Platform, RunCtx};

verus! {

/// Whether one array element is a node: an object with exactly one key.
pub open spec fn spec_is_node(el: SpecJson) -> bool {
    el matches SpecJson::Obj(o) && o.len() == 1
}

/// How a `paralel` payload parses: the elements of its `run` array, each of
/// which must be a single-key object.
pub open spec fn spec_paralel_parse(p: SpecJson) -> Result<Seq<SpecJson>, SpecErr> {
    match p {
        SpecJson::Obj(o) => match crate::json::spec_lookup(o, "run"@) {
            None => Err(SpecErr::MissingField("run"@)),
            Some(SpecJson::Arr(els)) => if forall|i: int| 0 <= i < els.len() ==> spec_is_node(
                #[trigger] els[i],
            ) {
                Ok(els)
            } else {
                Err(SpecErr::InvalidNode)
            },
            Some(_) => Err(SpecErr::NotAnArray),
        },
        _ => Err(SpecErr::PayloadNotObject),
    }
}

/// Folds the outcomes of the tasks: the first hard error wins and carries its
/// position; otherwise any soft failure makes the fold a soft failure;
/// otherwise everything succeeded.
#[verifier::loop_isolation(false)]
pub fn aggregate_outcomes(outcomes: Vec<Result<bool, RunError>>) -> (r: Result<bool, RunError>)
    ensures
        r == Ok::<bool, RunError>(true) ==> forall|i: int|
            0 <= i < outcomes@.len() ==> outcomes@[i] == Ok::<bool, RunError>(true),
        r == Ok::<bool, RunError>(false) ==> (forall|i: int|
            0 <= i < outcomes@.len() ==> outcomes@[i] is Ok) && exists|i: int|
            0 <= i < outcomes@.len() && outcomes@[i] == Ok::<bool, RunError>(false),
        r matches Err(e) ==> (e matches RunError::TaskFailed { index, cause } && 0 <= index
            < outcomes@.len() && outcomes@[index as int] == Err::<bool, RunError>(*cause) && (
        forall|j: int| 0 <= j < index ==> outcomes@[j] is Ok)),
{
    let ghost orig = outcomes@;
    let mut outcomes = outcomes;
    let n = outcomes.len();
    let mut saw_false: bool = false;
    let mut i: usize = 0;
    while i < n
        invariant
            i <= n,
            n == outcomes@.len(),
            outcomes@ == orig,
            forall|j: int| 0 <= j < i ==> outcomes@[j] is Ok,
            saw_false <==> exists|j: int|
                0 <= j < i && outcomes@[j] == Ok::<bool, RunError>(false),
        decreases n - i,
    {
        let is_err = match &outcomes[i] {
            Ok(b) => {
                if !*b {
                    saw_false = true;
                    assert(outcomes@[i as int] == Ok::<bool, RunError>(false));
                }
                false
            },
            Err(_) => true,
        };
        if is_err {
            let failed = outcomes.remove(i);
            match failed {
                Err(cause) => {
                    return Err(RunError::TaskFailed { index: i, cause: Box::new(cause) });
                },
                Ok(_) => {
                    assert(false);
                    return Ok(false);
                },
            }
        }
        i = i + 1;
    }
    if saw_false {
        Ok(false)
    } else {
        assert forall|j: int| 0 <= j < outcomes@.len() implies outcomes@[j] == Ok::<
            bool,
            RunError,
        >(true) by {
            let o = outcomes@[j];
            assert(o is Ok);
            assert(!(o == Ok::<bool, RunError>(false)));
            if !o->Ok_0 {
                assert(o == Ok::<bool, RunError>(false));
            }
        }
        Ok(true)
    }
}

/// One task per element: each element wrapped, alone, into a one-node
/// tree. No element is dropped, duplicated or reordered.
pub fn build_tasks(elements: &Vec<JsonValue>) -> (tasks: Vec<JsonValue>)
    ensures
        tasks@.len() == elements@.len(),
        forall|i: int|
            0 <= i < elements@.len() ==> #[trigger] tasks@[i]@ == SpecJson::Arr(
                seq![elements@[i]@],
            ),
{
    let mut tasks: Vec<JsonValue> = Vec::new();
    let mut i: usize = 0;
    while i < elements.len()
        invariant
            i <= elements@.len(),
            tasks@.len() == i,
            forall|j: int|
                0 <= j < i ==> #[trigger] tasks@[j]@ == SpecJson::Arr(seq![elements@[j]@]),
        decreases elements@.len() - i,
    {
        let one = json_clone(&elements[i]);
        let mut wrapped: Vec<JsonValue> = Vec::new();
        wrapped.push(one);
        proof {
            crate::json::lemma_arr_of(wrapped@);
            assert(spec_arr_of(wrapped@) =~= seq![elements@[i as int]@]);
        }
        tasks.push(JsonValue::Array(wrapped));
        i = i + 1;
    }
    tasks
}

/// Parses and runs one `paralel` node.
pub struct ParalelExecCommandExecutor {}

impl ParalelExecCommandExecutor {
    /// Validates every element, spawns one rendering task per element, waits
    /// for all of them and folds their outcomes.
    #[verifier::loop_isolation(false)]
    pub fn execute_command<E: Platform>(
        &self,
        json_data: &JsonValue,
        action: &InstallActionType,
        ctx: &mut RunCtx,
        env: &mut E,
    ) -> (r: Result<bool, RunError>)
        ensures
            old(ctx).seen@.subset_of(final(ctx).seen@),
            crate::vars::warnings_extended(old(ctx).warnings@, final(ctx).warnings@),
            spec_paralel_parse(json_data@) matches Err(kind) ==> (r matches Err(e)
                && spec_err_matches(e, kind) && final(ctx).vars@ == old(ctx).vars@
                && final(ctx).seen@ == old(ctx).seen@
                && final(ctx).warnings@ == old(ctx).warnings@),
            spec_paralel_parse(json_data@) is Ok ==> (r matches Err(e) ==> e is TaskFailed),
    {
        proof {
            crate::vars::lemma_warnings_refl(ctx.warnings@);
        }
        let members = match payload_object(json_data) {
            Ok(m) => m,
            Err(e) => {
                return Err(e);
            },
        };
        let elements = match obj_get(members, "run") {
            None => {
                return Err(RunError::MissingField(String::from_str("run")));
            },
            Some(JsonValue::Array(els)) => els,
            Some(_) => {
                return Err(RunError::NotAnArray);
            },
        };
        let ghost els_spec = spec_arr_of(elements@);
        proof {
            crate::json::lemma_arr_of(elements@);
        }
        let mut i: usize = 0;
        while i < elements.len()
            invariant
                i <= elements@.len(),
                els_spec == spec_arr_of(elements@),
                els_spec.len() == elements@.len(),
                forall|j: int| 0 <= j < elements@.len() ==> els_spec[j] == elements@[j]@,
                forall|j: int| 0 <= j < i ==> spec_is_node(#[trigger] els_spec[j]),
            decreases elements@.len() - i,
        {
            match &elements[i] {
                JsonValue::Object(m) => {
                    proof {
                        crate::json::lemma_members_of(m@);
                    }
                    if m.len() != 1 {
                        proof {
                            assert(!spec_is_node(els_spec[i as int]));
                        }
                        return Err(RunError::InvalidNode);
                    }
                },
                _ => {
                    proof {
                        assert(!spec_is_node(els_spec[i as int]));
                    }
                    return Err(RunError::InvalidNode);
                },
            }
            i = i + 1;
        }
        let tasks = build_tasks(elements);
        let outcomes = env.run_concurrent(tasks, action, ctx);
        match aggregate_outcomes(outcomes) {
            Ok(b) => Ok(b),
            Err(e) => {
                proof {
                    assert(e is TaskFailed);
                }
                Err(e)
            },
        }
    }
}

} // verus!
