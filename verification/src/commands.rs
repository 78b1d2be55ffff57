//! The commands of the registry, one module each, plus what they share.

pub mod common;
pub mod conditional_command;
pub mod delete_reg_key_command;
pub mod dir_command;
pub mod exec_command;
pub mod get_reg_value_command;
pub mod include_command;
pub mod paralel_exec_command;
pub mod ps1_command;
pub mod set_reg_value_command;
pub mod set_var_command;
pub mod vcpkg_command;
pub mod winget_command;
