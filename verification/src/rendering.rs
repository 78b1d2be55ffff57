//! The renderer: walks an ordered sequence of single-key command nodes,
//! resolves each tag through the registry and executes the command. A hard
//! error unwinds immediately; a command that reports `Ok(false)` stops the
//! remaining siblings and makes the whole sequence report `Ok(false)`; only
//! a sequence whose every node succeeds reports `Ok(true)`.

use vstd::prelude::*;
use vstd::string::*;

use crate::action::InstallActionType;
use crate::commands::conditional_command::ConditionalCommandExecutor;
use crate::commands::delete_reg_key_command::DeleteRegistryValueCommandExecutor;
use crate::commands::dir_command::DirCommandExecutor;
use crate::commands::exec_command::ExecCommandExecutor;
use crate::commands::get_reg_value_command::GetRegistryValueCommandExecutor;
use crate::commands::include_command::IncludeCommandExecutor;
use crate::commands::paralel_exec_command::ParalelExecCommandExecutor;
use crate::commands::ps1_command::PowershellCommandExecutor;
use crate::commands::set_reg_value_command::UpdateRegistryCommandExecutor;
use crate::commands::set_var_command::SetVarCommandExecutor;
use crate::commands::vcpkg_command::VcpkgCommandExecutor;
use crate::commands::winget_command::WingetCommandExecutor;
use crate::errors::RunError;
use crate::executor_factory::{spec_command_of, CommandKind, ExecutorFactory};
use crate::json::{spec_arr_of, JsonValue, SpecJson};
use crate::platform::{Platform, RunCtx};
use crate::text::string_of;
use crate::vars::{
    lemma_warnings_refl, lemma_warnings_trans, warnings_extended, ScalarValue, SpecScalar,
    VarStore,
};

verus! {

/// The tag and payload of one node, if it has the right shape: an object
/// with exactly one key.
pub open spec fn spec_node_shape(el: SpecJson) -> Option<(Seq<char>, SpecJson)> {
    match el {
        SpecJson::Obj(o) => if o.len() == 1 {
            Some((o[0].0, o[0].1))
        } else {
            None
        },
        _ => None,
    }
}

/// Renders a configuration tree under one action: every node in listed
/// order, each completing before the next starts, stopping at the first
/// soft failure and unwinding at the first hard error. The tree must be an
/// array; its first malformed or unknown node is rejected before anything
/// else runs. The contract pins the rejection down for the head of the
/// list, and conversely a run that reports full success vouches for the
/// shape and tag of every node; what each command's execution came to is
/// the platform's to answer and stands in the command contracts.
#[verifier::loop_isolation(false)]
#[verifier::rlimit(60)]
pub fn render<E: Platform>(
    json_data: &JsonValue,
    action: &InstallActionType,
    ctx: &mut RunCtx,
    env: &mut E,
) -> (r: Result<bool, RunError>)
    ensures
        !(json_data@ is Arr) ==> (r matches Err(e) && e is NotAnArray && final(ctx).vars@ == old(
            ctx,
        ).vars@ && final(ctx).seen@ == old(ctx).seen@ && final(ctx).warnings@ == old(
            ctx,
        ).warnings@),
        json_data@ matches SpecJson::Arr(els) ==> (els.len() == 0 ==> (r == Ok::<
            bool,
            RunError,
        >(true) && final(ctx).vars@ == old(ctx).vars@ && final(ctx).seen@ == old(ctx).seen@
            && final(ctx).warnings@ == old(ctx).warnings@)),
        json_data@ matches SpecJson::Arr(els) ==> ((els.len() > 0 && spec_node_shape(
            els[0],
        ) is None) ==> (r matches Err(e) && e is InvalidNode && final(ctx).vars@ == old(ctx).vars@
            && final(ctx).seen@ == old(ctx).seen@ && final(ctx).warnings@ == old(ctx).warnings@)),
        json_data@ matches SpecJson::Arr(els) ==> (els.len() > 0 ==> (spec_node_shape(els[0])
            matches Some(hd) ==> (spec_command_of(hd.0) is None ==> (r matches Err(e) && (e
            matches RunError::UnknownCommand(t) && t@ == hd.0) && final(ctx).vars@ == old(
            ctx,
        ).vars@ && final(ctx).seen@ == old(ctx).seen@ && final(ctx).warnings@ == old(
            ctx,
        ).warnings@)))),
        old(ctx).seen@.subset_of(final(ctx).seen@),
        warnings_extended(old(ctx).warnings@, final(ctx).warnings@),
        r == Ok::<bool, RunError>(true) ==> (json_data@ matches SpecJson::Arr(els) ==> forall|
            i: int,
        |
            0 <= i < els.len() ==> (#[trigger] spec_node_shape(els[i]) matches Some(hd)
                && spec_command_of(hd.0) is Some)),
    decreases json_data, 0int,
{
    proof {
        lemma_warnings_refl(ctx.warnings@);
    }
    let elements = match json_data {
        JsonValue::Array(a) => a,
        _ => {
            return Err(RunError::NotAnArray);
        },
    };
    proof {
        crate::json::lemma_arr_of(elements@);
    }
    if elements.len() == 0 {
        return Ok(true);
    }
    let ghost els = spec_arr_of(elements@);
    let mut idx: usize = 0;
    while idx < elements.len()
        invariant
            idx <= elements@.len(),
            idx == 0 ==> (ctx.vars@ == old(ctx).vars@ && ctx.seen@ == old(ctx).seen@
                && ctx.warnings@ == old(ctx).warnings@),
            old(ctx).seen@.subset_of(ctx.seen@),
            warnings_extended(old(ctx).warnings@, ctx.warnings@),
            forall|j: int|
                0 <= j < idx ==> (#[trigger] spec_node_shape(els[j]) matches Some(hd)
                    && spec_command_of(hd.0) is Some),
        decreases elements@.len() - idx,
    {
        let node = &elements[idx];
        let members = match node {
            JsonValue::Object(m) => m,
            _ => {
                return Err(RunError::InvalidNode);
            },
        };
        proof {
            crate::json::lemma_members_of(members@);
        }
        if members.len() != 1 {
            return Err(RunError::InvalidNode);
        }
        let tag: &String = &members[0].key;
        let payload: &JsonValue = &members[0].value;
        assert(spec_node_shape(els[idx as int]) == Some((tag@, payload@)));
        let kind = match ExecutorFactory::build(tag.as_str()) {
            Ok(k) => k,
            Err(e) => {
                return Err(e);
            },
        };
        proof {
            assert(decreases_to!(*json_data => *elements));
            assert(decreases_to!(*elements => elements@[idx as int]));
            assert(decreases_to!(elements@[idx as int] => *members));
            assert(decreases_to!(*members => members@[0]));
            assert(decreases_to!(members@[0] => members@[0].value));
        }
        let ghost warn_pre = ctx.warnings@;
        let ghost seen_pre = ctx.seen@;
        let outcome = match kind {
            CommandKind::Exec => (ExecCommandExecutor {  }).execute_command(
                payload,
                action,
                ctx,
                env,
            ),
            CommandKind::Winget => (WingetCommandExecutor {  }).execute_command(
                payload,
                action,
                ctx,
                env,
            ),
            CommandKind::Include => (IncludeCommandExecutor {  }).execute_command(
                payload,
                action,
                ctx,
                env,
            ),
            CommandKind::RegUpdate => (UpdateRegistryCommandExecutor {  }).execute_command(
                payload,
                action,
                ctx,
                env,
            ),
            CommandKind::Ps1 => (PowershellCommandExecutor {  }).execute_command(
                payload,
                action,
                ctx,
                env,
            ),
            CommandKind::Vcpkg => (VcpkgCommandExecutor {  }).execute_command(
                payload,
                action,
                ctx,
                env,
            ),
            CommandKind::Dir => (DirCommandExecutor {  }).execute_command(
                payload,
                action,
                ctx,
                env,
            ),
            CommandKind::SetVar => (SetVarCommandExecutor {  }).execute_command(
                payload,
                action,
                ctx,
            ),
            CommandKind::GetRegVal => (GetRegistryValueCommandExecutor {  }).execute_command(
                payload,
                action,
                ctx,
                env,
            ),
            CommandKind::If => (ConditionalCommandExecutor {  }).execute_command(
                payload,
                action,
                ctx,
                env,
            ),
            CommandKind::DeleteRegKey => (DeleteRegistryValueCommandExecutor {  }).execute_command(
                payload,
                action,
                ctx,
                env,
            ),
            CommandKind::Paralel => (ParalelExecCommandExecutor {  }).execute_command(
                payload,
                action,
                ctx,
                env,
            ),
        };
        proof {
            lemma_warnings_trans(old(ctx).warnings@, warn_pre, ctx.warnings@);
            assert(old(ctx).seen@.subset_of(ctx.seen@));
        }
        match outcome {
            Ok(ret) => {
                if !ret {
                    return Ok(false);
                }
            },
            Err(e) => {
                return Err(e);
            },
        }
        idx = idx + 1;
    }
    Ok(true)
}

/// A path separator, of either convention.
pub open spec fn spec_is_sep(c: char) -> bool {
    c == '/' || c == '\\'
}

/// The position of the last path separator in `s`, if it has one.
pub open spec fn spec_last_sep(s: Seq<char>) -> Option<int>
    decreases s.len(),
{
    if s.len() == 0 {
        None
    } else if spec_is_sep(s.last()) {
        Some(s.len() - 1)
    } else {
        spec_last_sep(s.drop_last())
    }
}

/// The directory of a path: everything up to and including the last
/// separator.
pub open spec fn spec_conf_dir_of(s: Seq<char>) -> Option<Seq<char>> {
    match spec_last_sep(s) {
        None => None,
        Some(i) => Some(s.subrange(0, i + 1)),
    }
}

/// `a` wrapped in double quotes.
pub open spec fn spec_quoted(a: Seq<char>) -> Seq<char> {
    seq!['"'] + a + seq!['"']
}

/// Every argument quoted, joined by single spaces.
pub open spec fn spec_quote_join(args: Seq<Seq<char>>) -> Seq<char>
    decreases args.len(),
{
    if args.len() == 0 {
        Seq::empty()
    } else if args.len() == 1 {
        spec_quoted(args[0])
    } else {
        spec_quote_join(args.drop_last()) + seq![' '] + spec_quoted(args.last())
    }
}

/// Records the two reserved variables the host sets before rendering begins:
/// `CONF_DIR`, the directory of the canonical root configuration path, and
/// `CMD`, the invoking command line with every argument quoted. A canonical
/// path without a separator has no directory to record, which is an error.
pub fn save_cmd(canonical_config: &String, args: &Vec<String>, vars: &mut VarStore) -> (r: Result<
    (),
    RunError,
>)
    ensures
        match spec_conf_dir_of(canonical_config@) {
            None => (r matches Err(e) && (e matches RunError::NoParentDirectory(p) && p@
                == canonical_config@)) && final(vars)@ == old(vars)@,
            Some(d) => r == Ok::<(), RunError>(()) && final(vars)@ == old(vars)@.insert(
                "CONF_DIR"@,
                SpecScalar::Str(d),
            ).insert(
                "CMD"@,
                SpecScalar::Str(
                    spec_quote_join(Seq::new(args@.len(), |i: int| args@[i]@)),
                ),
            ),
        },
{
    let chars = crate::text::chars_of(canonical_config.as_str());
    let ghost cs = canonical_config@;
    let mut sep: usize = chars.len();
    let mut found = false;
    proof {
        assert(cs.subrange(0, cs.len() as int) =~= cs);
    }
    while sep > 0 && !found
        invariant
            sep <= cs.len(),
            cs == chars@,
            found ==> (sep < cs.len() && spec_is_sep(cs[sep as int]) && spec_last_sep(cs)
                == Some(sep as int)),
            !found ==> spec_last_sep(cs) == spec_last_sep(cs.subrange(0, sep as int)),
        decreases sep,
    {
        let c = chars[sep - 1];
        if c == '/' || c == '\\' {
            found = true;
            sep = sep - 1;
            proof {
                assert(cs.subrange(0, sep + 1).last() == cs[sep as int]);
                assert(spec_last_sep(cs.subrange(0, sep + 1)) == Some(sep as int));
            }
        } else {
            proof {
                assert(cs.subrange(0, sep as int).last() == cs[sep - 1]);
                assert(cs.subrange(0, sep as int).drop_last() =~= cs.subrange(0, sep - 1));
            }
            sep = sep - 1;
        }
    }
    if !found {
        assert(cs.subrange(0, 0).len() == 0);
        return Err(RunError::NoParentDirectory(canonical_config.clone()));
    }
    let dir_chars = crate::text::copy_range(&chars, 0, sep + 1);
    let conf_dir = string_of(&dir_chars);
    vars.set("CONF_DIR", ScalarValue::Str(conf_dir));
    let ghost aseq = Seq::new(args@.len(), |i: int| args@[i]@);
    let mut cmd_chars: Vec<char> = Vec::new();
    let mut k: usize = 0;
    while k < args.len()
        invariant
            k <= args@.len(),
            aseq == Seq::new(args@.len(), |i: int| args@[i]@),
            cmd_chars@ == spec_quote_join(aseq.subrange(0, k as int)),
        decreases args@.len() - k,
    {
        if k > 0 {
            cmd_chars.push(' ');
        }
        cmd_chars.push('"');
        let arg_chars = crate::text::chars_of(args[k].as_str());
        crate::text::push_range(&mut cmd_chars, &arg_chars, 0, arg_chars.len());
        cmd_chars.push('"');
        proof {
            assert(arg_chars@.subrange(0, arg_chars@.len() as int) =~= aseq[k as int]);
            let pre = aseq.subrange(0, k as int);
            let now = aseq.subrange(0, k + 1);
            assert(now.drop_last() =~= pre);
            assert(now.last() == aseq[k as int]);
            if k == 0 {
                assert(cmd_chars@ =~= spec_quoted(aseq[0]));
                assert(now.len() == 1);
                assert(spec_quote_join(now) == spec_quoted(now[0]));
            } else {
                assert(cmd_chars@ =~= spec_quote_join(pre) + seq![' '] + spec_quoted(
                    aseq[k as int],
                ));
            }
        }
        k = k + 1;
    }
    assert(aseq.subrange(0, aseq.len() as int) =~= aseq);
    let cmd = string_of(&cmd_chars);
    vars.set("CMD", ScalarValue::Str(cmd));
    Ok(())
}

/// Loads a configuration file through the platform and renders its tree.
/// A file that cannot be loaded is fatal before anything runs; rendering
/// keeps what it always keeps: the set of rendered files only grows and
/// warnings are only appended.
pub fn install_config<E: Platform>(
    conf_file: &String,
    action: &InstallActionType,
    ctx: &mut RunCtx,
    env: &mut E,
) -> (r: Result<bool, RunError>)
    ensures
        old(ctx).seen@.subset_of(final(ctx).seen@),
        warnings_extended(old(ctx).warnings@, final(ctx).warnings@),
{
    let tree = match env.load_config(conf_file) {
        Ok(t) => t,
        Err(msg) => {
            proof {
                lemma_warnings_refl(ctx.warnings@);
            }
            return Err(RunError::LoadFailed(msg));
        },
    };
    render(&tree, action, ctx, env)
}

} // verus!
