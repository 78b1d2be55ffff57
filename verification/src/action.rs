use vstd::prelude::*;

verus! {

/// Which of the three setup actions this process run performs. The choice is
/// made once per run and threaded by value through every command.
#[allow(non_camel_case_types)]
#[derive(Clone, Copy, PartialEq, Eq, Structural, Debug)]
pub enum InstallActionType {
    INSTALL,
    UNINSTALL,
    UPDATE,
}

} // verus!
