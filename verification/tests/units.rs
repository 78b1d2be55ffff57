//! The smaller pieces on their own: text utilities, the variable store, the
//! set of rendered files, the registry of tags, host preparation and the
//! parallel fold.

use quick_setup::commands::common::split_command_line;
use quick_setup::commands::delete_reg_key_command::deletion_result;
use quick_setup::commands::dir_command::creation_result;
use quick_setup::commands::get_reg_value_command::GetRegistryValueCommand;
use quick_setup::commands::include_command::resolve_config_path;
use quick_setup::commands::paralel_exec_command::{aggregate_outcomes, build_tasks};
use quick_setup::json::JsonValue;
use quick_setup::platform::{DirOutcome, RegDeleteOutcome};
use quick_setup::errors::RunError;
use quick_setup::executor_factory::{CommandKind, ExecutorFactory};
use quick_setup::rendering::save_cmd;
use quick_setup::text::{
    chars_of, compare_chars, contains_chars, dec_chars, str_eq, string_of, trim_chars, TextOrder,
};
use quick_setup::vars::{IncludeSet, ScalarValue, VarStore};

#[test]
fn chars_roundtrip_through_string() {
    let v = chars_of("round trip ≠ lossy");
    assert_eq!(string_of(&v), "round trip ≠ lossy");
}

#[test]
fn str_eq_compares_characters() {
    assert!(str_eq("same", "same"));
    assert!(!str_eq("same", "same "));
    assert!(!str_eq("a", "b"));
    assert!(str_eq("", ""));
}

#[test]
fn compare_is_lexicographic_by_scalar_value() {
    assert_eq!(compare_chars(&chars_of("abc"), &chars_of("abd")), TextOrder::Less);
    assert_eq!(compare_chars(&chars_of("abc"), &chars_of("abc")), TextOrder::Equal);
    assert_eq!(compare_chars(&chars_of("b"), &chars_of("ab")), TextOrder::Greater);
    assert_eq!(compare_chars(&chars_of("ab"), &chars_of("abc")), TextOrder::Less);
    assert_eq!(compare_chars(&chars_of(""), &chars_of("")), TextOrder::Equal);
}

#[test]
fn contains_finds_substrings() {
    assert!(contains_chars(&chars_of("hello world"), &chars_of("o w")));
    assert!(!contains_chars(&chars_of("hello"), &chars_of("world")));
    assert!(contains_chars(&chars_of("anything"), &chars_of("")));
    assert!(!contains_chars(&chars_of(""), &chars_of("x")));
}

#[test]
fn decimal_rendering_has_no_leading_zeros() {
    assert_eq!(string_of(&dec_chars(0)), "0");
    assert_eq!(string_of(&dec_chars(7)), "7");
    assert_eq!(string_of(&dec_chars(1042)), "1042");
    assert_eq!(string_of(&dec_chars(u32::MAX)), "4294967295");
}

#[test]
fn trim_strips_surrounding_whitespace_only() {
    assert_eq!(string_of(&trim_chars(&chars_of("  a b \t"))), "a b");
    assert_eq!(string_of(&trim_chars(&chars_of("ab"))), "ab");
    assert_eq!(string_of(&trim_chars(&chars_of("   "))), "");
    assert_eq!(string_of(&trim_chars(&chars_of(""))), "");
}

#[test]
fn store_is_last_write_wins_and_typed() {
    let mut vars = VarStore::new();
    assert!(vars.get("K").is_none());
    vars.set("K", ScalarValue::UInt(1));
    vars.set("K", ScalarValue::Str("two".to_string()));
    match vars.get("K") {
        Some(ScalarValue::Str(s)) => assert_eq!(s, "two"),
        other => panic!("expected the string binding, got {:?}", other.is_some()),
    }
}

#[test]
fn rendered_set_reports_and_records_in_one_step() {
    let mut seen = IncludeSet::new();
    assert!(!seen.check_and_insert("/a/b.json"));
    assert!(seen.check_and_insert("/a/b.json"));
    assert!(!seen.check_and_insert("/a/c.json"));
    assert!(seen.check_and_insert("/a/b.json"));
}

#[test]
fn registry_of_tags_is_closed() {
    assert!(matches!(ExecutorFactory::build("exec"), Ok(CommandKind::Exec)));
    assert!(matches!(ExecutorFactory::build("if"), Ok(CommandKind::If)));
    assert!(matches!(ExecutorFactory::build("paralel"), Ok(CommandKind::Paralel)));
    assert!(matches!(ExecutorFactory::build("include"), Ok(CommandKind::Include)));
    assert!(matches!(ExecutorFactory::build("reg_update"), Ok(CommandKind::RegUpdate)));
    assert!(matches!(ExecutorFactory::build("set_reg_val"), Ok(CommandKind::RegUpdate)));
    assert!(matches!(ExecutorFactory::build("get_reg_val"), Ok(CommandKind::GetRegVal)));
    assert!(matches!(ExecutorFactory::build("delete_reg_key"), Ok(CommandKind::DeleteRegKey)));
    assert!(matches!(ExecutorFactory::build("set_var"), Ok(CommandKind::SetVar)));
    assert!(matches!(ExecutorFactory::build("dir"), Ok(CommandKind::Dir)));
    assert!(matches!(ExecutorFactory::build("ps1"), Ok(CommandKind::Ps1)));
    assert!(matches!(ExecutorFactory::build("vcpkg"), Ok(CommandKind::Vcpkg)));
    assert!(matches!(ExecutorFactory::build("winget"), Ok(CommandKind::Winget)));
    match ExecutorFactory::build("Exec") {
        Err(RunError::UnknownCommand(t)) => assert_eq!(t, "Exec"),
        other => panic!("tags are case-sensitive, got {:?}", other),
    }
}

#[test]
fn host_preparation_records_directory_and_command_line() {
    let mut vars = VarStore::new();
    let canonical = "/setup/conf/root.json".to_string();
    let args = vec![
        "setup".to_string(),
        "--install".to_string(),
        "/setup/conf/root.json".to_string(),
    ];
    assert!(save_cmd(&canonical, &args, &mut vars).is_ok());
    match vars.get("CONF_DIR") {
        Some(ScalarValue::Str(d)) => assert_eq!(d, "/setup/conf/"),
        _ => panic!("the base directory was not recorded"),
    }
    match vars.get("CMD") {
        Some(ScalarValue::Str(c)) => {
            assert_eq!(c, "\"setup\" \"--install\" \"/setup/conf/root.json\"")
        },
        _ => panic!("the command line was not recorded"),
    }
}

#[test]
fn host_preparation_needs_a_directory() {
    let mut vars = VarStore::new();
    let r = save_cmd(&"noseparator.json".to_string(), &Vec::new(), &mut vars);
    match r {
        Err(RunError::NoParentDirectory(p)) => assert_eq!(p, "noseparator.json"),
        other => panic!("expected a no-parent error, got {:?}", other),
    }
    assert!(vars.get("CONF_DIR").is_none());
}

#[test]
fn relative_paths_resolve_against_the_base_directory() {
    let mut vars = VarStore::new();
    vars.set("CONF_DIR", ScalarValue::Str("/base/".to_string()));
    let r = resolve_config_path("inc.json".to_string(), false, &vars);
    assert_eq!(r.unwrap(), "/base/inc.json");
    let abs = resolve_config_path("/other/inc.json".to_string(), true, &vars);
    assert_eq!(abs.unwrap(), "/other/inc.json");
    let bare = VarStore::new();
    let missing = resolve_config_path("inc.json".to_string(), false, &bare);
    assert!(matches!(missing, Err(RunError::MissingConfDir)));
}

#[test]
fn fold_of_all_successes_succeeds() {
    let outcomes: Vec<Result<bool, RunError>> = vec![Ok(true), Ok(true), Ok(true)];
    assert!(matches!(aggregate_outcomes(outcomes), Ok(true)));
    let empty: Vec<Result<bool, RunError>> = Vec::new();
    assert!(matches!(aggregate_outcomes(empty), Ok(true)));
}

#[test]
fn fold_reports_a_soft_failure_without_hard_errors() {
    let outcomes: Vec<Result<bool, RunError>> = vec![Ok(true), Ok(false), Ok(true)];
    assert!(matches!(aggregate_outcomes(outcomes), Ok(false)));
}

#[test]
fn fold_prefers_the_first_hard_error() {
    let outcomes: Vec<Result<bool, RunError>> = vec![
        Ok(false),
        Err(RunError::UnsupportedPlatform),
        Err(RunError::NotAnArray),
    ];
    match aggregate_outcomes(outcomes) {
        Err(RunError::TaskFailed { index, cause }) => {
            assert_eq!(index, 1);
            assert!(matches!(*cause, RunError::UnsupportedPlatform));
        },
        other => panic!("expected a task failure, got {:?}", other),
    }
}

#[test]
fn command_lines_split_into_program_and_arguments() {
    let (program, args) = split_command_line(&"cp \"a file\" dest".to_string()).unwrap();
    assert_eq!(program, "cp");
    assert_eq!(args, vec!["a file".to_string(), "dest".to_string()]);
    let lone = split_command_line(&"solo".to_string()).unwrap();
    assert_eq!(lone.0, "solo");
    assert!(lone.1.is_empty());
    assert!(matches!(
        split_command_line(&"\"unclosed".to_string()),
        Err(RunError::CommandLineUnparsable(_))
    ));
    assert!(matches!(
        split_command_line(&"   ".to_string()),
        Err(RunError::CommandLineUnparsable(_))
    ));
}

#[test]
fn directory_creation_tolerates_an_existing_directory() {
    assert!(matches!(creation_result(DirOutcome::Done), Ok(true)));
    assert!(matches!(creation_result(DirOutcome::AlreadyThere), Ok(true)));
    assert!(matches!(
        creation_result(DirOutcome::Failed("disk full".to_string())),
        Err(RunError::DirFailed(_))
    ));
}

#[test]
fn registry_deletion_tolerates_absent_keys_and_values() {
    assert!(matches!(deletion_result(RegDeleteOutcome::Done), Ok(true)));
    assert!(matches!(deletion_result(RegDeleteOutcome::KeyMissing), Ok(true)));
    assert!(matches!(deletion_result(RegDeleteOutcome::ValueMissing), Ok(true)));
    assert!(matches!(
        deletion_result(RegDeleteOutcome::OpenFailed("denied".to_string())),
        Err(RunError::RegistryFailed(_))
    ));
    assert!(matches!(
        deletion_result(RegDeleteOutcome::DeleteFailed("denied".to_string())),
        Err(RunError::RegistryFailed(_))
    ));
}

#[test]
fn every_element_becomes_exactly_one_task() {
    let elements = vec![
        JsonValue::Str("a".to_string()),
        JsonValue::Str("b".to_string()),
    ];
    let tasks = build_tasks(&elements);
    assert_eq!(tasks.len(), 2);
    for (i, task) in tasks.iter().enumerate() {
        match task {
            JsonValue::Array(inner) => {
                assert_eq!(inner.len(), 1);
                match &inner[0] {
                    JsonValue::Str(s) => {
                        assert_eq!(s.as_str(), if i == 0 { "a" } else { "b" })
                    },
                    other => panic!("expected the element back, got {:?}", matches!(other, JsonValue::Null)),
                }
            },
            _ => panic!("a task must be a one-node tree"),
        }
    }
}

#[test]
fn read_values_bind_with_expansion_for_strings_only() {
    let cmd = GetRegistryValueCommand {
        reg_path: "Software\\App".to_string(),
        key_name: "Name".to_string(),
        install_key: "GOT".to_string(),
        can_fail: false,
    };
    let mut vars = VarStore::new();
    vars.set("V", ScalarValue::Str("deep".to_string()));
    let mut warnings: Vec<String> = Vec::new();
    let r = cmd.bind_read_value(
        ScalarValue::Str("%V% value".to_string()),
        &mut vars,
        &mut warnings,
    );
    assert!(matches!(r, Ok(true)));
    match vars.get("GOT") {
        Some(ScalarValue::Str(s)) => assert_eq!(s, "deep value"),
        _ => panic!("the string value was not bound"),
    }
    let r2 = cmd.bind_read_value(ScalarValue::UInt(7), &mut vars, &mut warnings);
    assert!(matches!(r2, Ok(true)));
    match vars.get("GOT") {
        Some(ScalarValue::UInt(n)) => assert_eq!(*n, 7),
        _ => panic!("the integer value was not bound"),
    }
    assert!(warnings.is_empty());
}
