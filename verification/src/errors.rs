//! The hard-error channel of the interpreter. Every value here aborts the
//! whole run when it reaches the host; a controlled failure of an external
//! action travels as `Ok(false)` instead and never takes this shape.

use vstd::prelude::*;

verus! {

/// A fatal error: a malformed configuration, or an external action that
/// failed in a way the configuration cannot express.
#[derive(Debug)]
pub enum RunError {
    /// A configuration tree whose root is not an array of nodes.
    NotAnArray,
    /// A node that is not an object with exactly one key.
    InvalidNode,
    /// A command payload that is not a JSON object.
    PayloadNotObject,
    /// A node whose tag names no registered command.
    UnknownCommand(String),
    /// A payload that lacks a required field; carries the field name.
    MissingField(String),
    /// A payload field of the wrong type; carries the field name.
    WrongFieldType(String),
    /// A variable value that is not a string, an unsigned integer or a boolean.
    UnsupportedValueType,
    /// A condition string that does not match the comparison pattern.
    InvalidCondition(String),
    /// A relative inclusion path with no base-directory variable to resolve it.
    MissingConfDir,
    /// A configuration file that could not be opened, read or parsed.
    LoadFailed(String),
    /// A configuration path with no parent directory to remember.
    NoParentDirectory(String),
    /// A process that could not be spawned or awaited.
    SpawnFailed(String),
    /// A command line that shell-style word splitting rejected or left empty.
    CommandLineUnparsable(String),
    /// A command that cannot run on this operating system.
    UnsupportedPlatform,
    /// A directory that could not be removed or created.
    DirFailed(String),
    /// A registry key or value that could not be opened, read, written or
    /// deleted.
    RegistryFailed(String),
    /// A concurrent task that ended in a hard error; carries its position.
    TaskFailed { index: usize, cause: Box<RunError> },
}

/// The configuration errors a contract can predict from the payload and the
/// variable store alone, with their text payloads as character sequences.
pub enum SpecErr {
    NotAnArray,
    InvalidNode,
    PayloadNotObject,
    UnknownCommand(Seq<char>),
    MissingField(Seq<char>),
    WrongFieldType(Seq<char>),
    UnsupportedValueType,
    InvalidCondition(Seq<char>),
    MissingConfDir,
}

/// Whether the runtime error `e` is the predicted error `k`.
pub open spec fn spec_err_matches(e: RunError, k: SpecErr) -> bool {
    match k {
        SpecErr::NotAnArray => e is NotAnArray,
        SpecErr::InvalidNode => e is InvalidNode,
        SpecErr::PayloadNotObject => e is PayloadNotObject,
        SpecErr::UnknownCommand(t) => e matches RunError::UnknownCommand(s) && s@ == t,
        SpecErr::MissingField(t) => e matches RunError::MissingField(s) && s@ == t,
        SpecErr::WrongFieldType(t) => e matches RunError::WrongFieldType(s) && s@ == t,
        SpecErr::UnsupportedValueType => e is UnsupportedValueType,
        SpecErr::InvalidCondition(t) => e matches RunError::InvalidCondition(s) && s@ == t,
        SpecErr::MissingConfDir => e is MissingConfDir,
    }
}

} // verus!
