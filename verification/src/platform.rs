//! The boundary to the operating system. Every leaf effect — spawning a
//! process, touching the registry, creating a directory, loading a file —
//! is one method of the [`Platform`] trait. The interpreter never promises
//! anything about what these methods do; it states what holds of its own
//! behaviour whatever they return. The host implements the trait with real
//! OS calls; tests implement it with recorders.

use vstd::prelude::*;

use crate::action::InstallActionType;
use crate::errors::RunError;
use crate::json::JsonValue;
use crate::vars::{warnings_extended, IncludeSet, VarStore};

verus! {

/// Everything a rendering pass carries besides the configuration itself:
/// the variable store, the set of configuration files already rendered, and
/// the warnings collected along the way.
pub struct RunCtx {
    pub vars: VarStore,
    pub seen: IncludeSet,
    pub warnings: Vec<String>,
}

impl RunCtx {
    /// A fresh context: no variables, no rendered files, no warnings.
    pub fn new() -> (r: RunCtx)
        ensures
            r.vars@ == Map::<Seq<char>, crate::vars::SpecScalar>::empty(),
            r.seen@ == Set::<Seq<char>>::empty(),
            r.warnings@ == Seq::<String>::empty(),
    {
        RunCtx { vars: VarStore::new(), seen: IncludeSet::new(), warnings: Vec::new() }
    }
}

/// How creating a directory tree ended.
pub enum DirOutcome {
    /// The directory now exists (created or already there).
    Done,
    /// It already existed and creation said so.
    AlreadyThere,
    /// Creation failed for another reason.
    Failed(String),
}

/// How writing a registry value ended.
pub enum RegWriteOutcome {
    Done,
    OpenFailed(String),
    WriteFailed(String),
}

/// How deleting a registry value ended.
pub enum RegDeleteOutcome {
    Done,
    /// The key to open was not there; nothing to delete.
    KeyMissing,
    /// The key exists but holds no such value; nothing to delete.
    ValueMissing,
    OpenFailed(String),
    DeleteFailed(String),
}

/// The out-of-scope collaborators of the interpreter: one OS effect per
/// method, each taking plain values and returning plain values. Nothing is
/// assumed of any of them.
pub trait Platform {
    /// Spawns `program` with `args`, in `dir` if one is given, waits for it
    /// to exit, and reports whether it exited successfully; `Err` carries the
    /// reason the process could not be spawned or awaited.
    fn spawn_wait(&mut self, program: &String, args: &Vec<String>, dir: &Option<String>) -> Result<
        bool,
        String,
    >;

    /// Whether this host runs Windows.
    fn is_windows(&mut self) -> bool;

    /// Removes a directory tree.
    fn remove_dir_all(&mut self, path: &String) -> Result<(), String>;

    /// Creates a directory and its parents.
    fn create_dir_all(&mut self, path: &String) -> DirOutcome;

    /// Reads a registry value as a string.
    fn reg_read_string(&mut self, path: &String, key: &String) -> Result<String, String>;

    /// Reads a registry value as an unsigned 32-bit integer.
    fn reg_read_dword(&mut self, path: &String, key: &String) -> Result<u32, String>;

    /// Writes a string registry value.
    fn reg_write_string(&mut self, path: &String, key: &String, value: &String) -> RegWriteOutcome;

    /// Deletes a registry value.
    fn reg_delete_value(&mut self, path: &String, key: &String) -> RegDeleteOutcome;

    /// Whether `path` names an existing file by an absolute path.
    fn is_absolute_file(&mut self, path: &String) -> bool;

    /// The canonical, symlink-resolved form of `path`, if it can be resolved.
    fn canonical_path(&mut self, path: &String) -> Option<String>;

    /// Loads a configuration file and parses its bytes into a JSON tree.
    fn load_config(&mut self, path: &String) -> Result<JsonValue, String>;

    /// Renders an included configuration tree by re-entering the renderer.
    /// An implementation must keep what rendering itself keeps: the set of
    /// rendered files only grows, and warnings are only appended.
    fn render_included(
        &mut self,
        tree: &JsonValue,
        action: &InstallActionType,
        ctx: &mut RunCtx,
    ) -> (r: Result<bool, RunError>)
        ensures
            old(ctx).seen@.subset_of(final(ctx).seen@),
            warnings_extended(old(ctx).warnings@, final(ctx).warnings@),
    ;

    /// Renders each tree as its own concurrently scheduled task, waits for
    /// all of them whatever the others did, and hands back one outcome per
    /// tree, in task order. An implementation must keep what rendering
    /// itself keeps: one outcome per task, the set of rendered files only
    /// grows, and warnings are only appended.
    fn run_concurrent(
        &mut self,
        tasks: Vec<JsonValue>,
        action: &InstallActionType,
        ctx: &mut RunCtx,
    ) -> (outcomes: Vec<Result<bool, RunError>>)
        ensures
            outcomes@.len() == tasks@.len(),
            old(ctx).seen@.subset_of(final(ctx).seen@),
            warnings_extended(old(ctx).warnings@, final(ctx).warnings@),
    ;
}

} // verus!
