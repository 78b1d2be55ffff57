//! The command registry: a fixed mapping from node tags to commands. The tag
//! vocabulary is closed; a tag outside it is a fatal configuration error,
//! because no unrecognized step can be skipped safely.

use vstd::prelude::*;

use crate::errors::RunError;
use crate::text::str_eq;

verus! {

/// The commands a node tag can name. `reg_update` and `set_reg_val` are two
/// tags of the same registry-write command.
#[derive(Clone, Copy, PartialEq, Eq, Structural, Debug)]
pub enum CommandKind {
    Exec,
    Winget,
    Include,
    RegUpdate,
    Ps1,
    Vcpkg,
    Dir,
    SetVar,
    GetRegVal,
    If,
    DeleteRegKey,
    Paralel,
}

/// Which command a tag names, if any.
pub open spec fn spec_command_of(tag: Seq<char>) -> Option<CommandKind> {
    if tag == "exec"@ {
        Some(CommandKind::Exec)
    } else if tag == "winget"@ {
        Some(CommandKind::Winget)
    } else if tag == "include"@ {
        Some(CommandKind::Include)
    } else if tag == "reg_update"@ {
        Some(CommandKind::RegUpdate)
    } else if tag == "ps1"@ {
        Some(CommandKind::Ps1)
    } else if tag == "vcpkg"@ {
        Some(CommandKind::Vcpkg)
    } else if tag == "dir"@ {
        Some(CommandKind::Dir)
    } else if tag == "set_reg_val"@ {
        Some(CommandKind::RegUpdate)
    } else if tag == "set_var"@ {
        Some(CommandKind::SetVar)
    } else if tag == "get_reg_val"@ {
        Some(CommandKind::GetRegVal)
    } else if tag == "if"@ {
        Some(CommandKind::If)
    } else if tag == "delete_reg_key"@ {
        Some(CommandKind::DeleteRegKey)
    } else if tag == "paralel"@ {
        Some(CommandKind::Paralel)
    } else {
        None
    }
}

/// Builds commands from tags.
pub struct ExecutorFactory {}

impl ExecutorFactory {
    /// The command a tag names; an unknown tag is a fatal configuration
    /// error that carries the tag.
    pub fn build(name: &str) -> (r: Result<CommandKind, RunError>)
        ensures
            match r {
                Ok(k) => spec_command_of(name@) == Some(k),
                Err(e) => spec_command_of(name@) is None && (e
                    matches RunError::UnknownCommand(t) && t@ == name@),
            },
    {
        if str_eq(name, "exec") {
            Ok(CommandKind::Exec)
        } else if str_eq(name, "winget") {
            Ok(CommandKind::Winget)
        } else if str_eq(name, "include") {
            Ok(CommandKind::Include)
        } else if str_eq(name, "reg_update") {
            Ok(CommandKind::RegUpdate)
        } else if str_eq(name, "ps1") {
            Ok(CommandKind::Ps1)
        } else if str_eq(name, "vcpkg") {
            Ok(CommandKind::Vcpkg)
        } else if str_eq(name, "dir") {
            Ok(CommandKind::Dir)
        } else if str_eq(name, "set_reg_val") {
            Ok(CommandKind::RegUpdate)
        } else if str_eq(name, "set_var") {
            Ok(CommandKind::SetVar)
        } else if str_eq(name, "get_reg_val") {
            Ok(CommandKind::GetRegVal)
        } else if str_eq(name, "if") {
            Ok(CommandKind::If)
        } else if str_eq(name, "delete_reg_key") {
            Ok(CommandKind::DeleteRegKey)
        } else if str_eq(name, "paralel") {
            Ok(CommandKind::Paralel)
        } else {
            Err(RunError::UnknownCommand(name.to_owned()))
        }
    }
}

} // verus!
