//! End-to-end scenarios for the renderer: sequential short-circuit,
//! conditional branches, parallel fan-out, include dedup and templating
//! through a recording platform.

use quick_setup::action::InstallActionType;
use quick_setup::errors::RunError;
use quick_setup::json::{json_clone, JsonMember, JsonValue};
use quick_setup::platform::{DirOutcome, Platform, RegDeleteOutcome, RegWriteOutcome, RunCtx};
use quick_setup::rendering::render;
use quick_setup::vars::ScalarValue;

struct MockEnv {
    windows: bool,
    spawn_results: Vec<Result<bool, String>>,
    spawned: Vec<(String, Vec<String>, Option<String>)>,
    configs: Vec<(String, JsonValue)>,
    loads: Vec<String>,
    dirs_made: Vec<String>,
    dirs_removed: Vec<String>,
    reg_strings: Vec<(String, String, String)>,
    reg_written: Vec<(String, String, String)>,
    reg_deleted: Vec<(String, String)>,
    fail_dir: bool,
    fail_reg_write: bool,
}

impl MockEnv {
    fn new() -> MockEnv {
        MockEnv {
            windows: true,
            spawn_results: Vec::new(),
            spawned: Vec::new(),
            configs: Vec::new(),
            loads: Vec::new(),
            dirs_made: Vec::new(),
            dirs_removed: Vec::new(),
            reg_strings: Vec::new(),
            reg_written: Vec::new(),
            reg_deleted: Vec::new(),
            fail_dir: false,
            fail_reg_write: false,
        }
    }
}

impl Platform for MockEnv {
    fn spawn_wait(
        &mut self,
        program: &String,
        args: &Vec<String>,
        dir: &Option<String>,
    ) -> Result<bool, String> {
        self.spawned.push((program.clone(), args.clone(), dir.clone()));
        if self.spawn_results.is_empty() {
            Ok(true)
        } else {
            self.spawn_results.remove(0)
        }
    }

    fn is_windows(&mut self) -> bool {
        self.windows
    }

    fn remove_dir_all(&mut self, path: &String) -> Result<(), String> {
        self.dirs_removed.push(path.clone());
        Ok(())
    }

    fn create_dir_all(&mut self, path: &String) -> DirOutcome {
        if self.fail_dir {
            return DirOutcome::Failed(format!("cannot create {}", path));
        }
        self.dirs_made.push(path.clone());
        DirOutcome::Done
    }

    fn reg_read_string(&mut self, path: &String, key: &String) -> Result<String, String> {
        for (p, k, v) in self.reg_strings.iter() {
            if p == path && k == key {
                return Ok(v.clone());
            }
        }
        Err(format!("no string value {} under {}", key, path))
    }

    fn reg_read_dword(&mut self, path: &String, key: &String) -> Result<u32, String> {
        Err(format!("no dword value {} under {}", key, path))
    }

    fn reg_write_string(
        &mut self,
        path: &String,
        key: &String,
        value: &String,
    ) -> RegWriteOutcome {
        if self.fail_reg_write {
            return RegWriteOutcome::WriteFailed(format!("cannot write {}", key));
        }
        self.reg_written.push((path.clone(), key.clone(), value.clone()));
        RegWriteOutcome::Done
    }

    fn reg_delete_value(&mut self, path: &String, key: &String) -> RegDeleteOutcome {
        self.reg_deleted.push((path.clone(), key.clone()));
        RegDeleteOutcome::Done
    }

    fn is_absolute_file(&mut self, _path: &String) -> bool {
        false
    }

    fn canonical_path(&mut self, path: &String) -> Option<String> {
        Some(path.clone())
    }

    fn load_config(&mut self, path: &String) -> Result<JsonValue, String> {
        self.loads.push(path.clone());
        for (p, tree) in self.configs.iter() {
            if p == path {
                return Ok(json_clone(tree));
            }
        }
        Err(format!("no such file: {}", path))
    }

    fn render_included(
        &mut self,
        tree: &JsonValue,
        action: &InstallActionType,
        ctx: &mut RunCtx,
    ) -> Result<bool, RunError> {
        render(tree, action, ctx, self)
    }

    fn run_concurrent(
        &mut self,
        tasks: Vec<JsonValue>,
        action: &InstallActionType,
        ctx: &mut RunCtx,
    ) -> Vec<Result<bool, RunError>> {
        let mut outcomes = Vec::new();
        for task in tasks.iter() {
            outcomes.push(render(task, action, ctx, self));
        }
        outcomes
    }
}

fn member(key: &str, value: JsonValue) -> JsonMember {
    JsonMember { key: key.to_string(), value }
}

fn obj(members: Vec<JsonMember>) -> JsonValue {
    JsonValue::Object(members)
}

fn text(s: &str) -> JsonValue {
    JsonValue::Str(s.to_string())
}

fn node(tag: &str, payload: JsonValue) -> JsonValue {
    obj(vec![member(tag, payload)])
}

fn exec_node(line: &str) -> JsonValue {
    node("exec", obj(vec![member("install_run", text(line))]))
}

#[test]
fn sequence_runs_every_node_in_order() {
    let mut env = MockEnv::new();
    let mut ctx = RunCtx::new();
    let tree = JsonValue::Array(vec![exec_node("one"), exec_node("two"), exec_node("three")]);
    let r = render(&tree, &InstallActionType::INSTALL, &mut ctx, &mut env);
    assert!(matches!(r, Ok(true)));
    let programs: Vec<&str> = env.spawned.iter().map(|(p, _, _)| p.as_str()).collect();
    assert_eq!(programs, vec!["one", "two", "three"]);
}

#[test]
fn sequence_short_circuits_on_soft_failure() {
    let mut env = MockEnv::new();
    env.spawn_results = vec![Ok(true), Ok(false), Ok(true)];
    let mut ctx = RunCtx::new();
    let tree = JsonValue::Array(vec![exec_node("one"), exec_node("two"), exec_node("three")]);
    let r = render(&tree, &InstallActionType::INSTALL, &mut ctx, &mut env);
    assert!(matches!(r, Ok(false)));
    assert_eq!(env.spawned.len(), 2);
}

#[test]
fn sequence_unwinds_on_hard_error() {
    let mut env = MockEnv::new();
    env.spawn_results = vec![Err("no such program".to_string())];
    let mut ctx = RunCtx::new();
    let tree = JsonValue::Array(vec![exec_node("one"), exec_node("two")]);
    let r = render(&tree, &InstallActionType::INSTALL, &mut ctx, &mut env);
    assert!(matches!(r, Err(RunError::SpawnFailed(_))));
    assert_eq!(env.spawned.len(), 1);
}

#[test]
fn empty_tree_succeeds() {
    let mut env = MockEnv::new();
    let mut ctx = RunCtx::new();
    let tree = JsonValue::Array(Vec::new());
    let r = render(&tree, &InstallActionType::INSTALL, &mut ctx, &mut env);
    assert!(matches!(r, Ok(true)));
    assert!(env.spawned.is_empty());
}

#[test]
fn non_array_tree_is_fatal() {
    let mut env = MockEnv::new();
    let mut ctx = RunCtx::new();
    let r = render(&text("nope"), &InstallActionType::INSTALL, &mut ctx, &mut env);
    assert!(matches!(r, Err(RunError::NotAnArray)));
}

#[test]
fn multi_key_node_is_fatal() {
    let mut env = MockEnv::new();
    let mut ctx = RunCtx::new();
    let bad = obj(vec![
        member("exec", obj(vec![member("install_run", text("a"))])),
        member("dir", obj(vec![member("path", text("/tmp/x"))])),
    ]);
    let tree = JsonValue::Array(vec![bad]);
    let r = render(&tree, &InstallActionType::INSTALL, &mut ctx, &mut env);
    assert!(matches!(r, Err(RunError::InvalidNode)));
}

#[test]
fn unknown_tag_is_fatal() {
    let mut env = MockEnv::new();
    let mut ctx = RunCtx::new();
    let tree = JsonValue::Array(vec![node("frobnicate", obj(Vec::new()))]);
    let r = render(&tree, &InstallActionType::INSTALL, &mut ctx, &mut env);
    match r {
        Err(RunError::UnknownCommand(t)) => assert_eq!(t, "frobnicate"),
        other => panic!("expected an unknown-command error, got {:?}", other),
    }
}

#[test]
fn conditional_true_renders_run_branch() {
    let mut env = MockEnv::new();
    let mut ctx = RunCtx::new();
    let payload = obj(vec![
        member("condition", text("5 >= 3")),
        member("run", JsonValue::Array(vec![exec_node("chosen")])),
        member("else", JsonValue::Array(vec![exec_node("other")])),
    ]);
    let tree = JsonValue::Array(vec![node("if", payload)]);
    let r = render(&tree, &InstallActionType::INSTALL, &mut ctx, &mut env);
    assert!(matches!(r, Ok(true)));
    assert_eq!(env.spawned.len(), 1);
    assert_eq!(env.spawned[0].0, "chosen");
}

#[test]
fn conditional_contains_renders_run_branch() {
    let mut env = MockEnv::new();
    let mut ctx = RunCtx::new();
    let payload = obj(vec![
        member("condition", text("abc contains b")),
        member("run", JsonValue::Array(vec![exec_node("chosen")])),
        member("else", JsonValue::Array(vec![exec_node("other")])),
    ]);
    let tree = JsonValue::Array(vec![node("if", payload)]);
    let r = render(&tree, &InstallActionType::INSTALL, &mut ctx, &mut env);
    assert!(matches!(r, Ok(true)));
    assert_eq!(env.spawned.len(), 1);
    assert_eq!(env.spawned[0].0, "chosen");
}

#[test]
fn conditional_not_contains_renders_else_branch() {
    let mut env = MockEnv::new();
    let mut ctx = RunCtx::new();
    let payload = obj(vec![
        member("condition", text("abc !contains b")),
        member("run", JsonValue::Array(vec![exec_node("chosen")])),
        member("else", JsonValue::Array(vec![exec_node("other")])),
    ]);
    let tree = JsonValue::Array(vec![node("if", payload)]);
    let r = render(&tree, &InstallActionType::INSTALL, &mut ctx, &mut env);
    assert!(matches!(r, Ok(true)));
    assert_eq!(env.spawned.len(), 1);
    assert_eq!(env.spawned[0].0, "other");
}

#[test]
fn conditional_without_pattern_is_fatal() {
    let mut env = MockEnv::new();
    let mut ctx = RunCtx::new();
    let payload = obj(vec![member("condition", text("justonestring"))]);
    let tree = JsonValue::Array(vec![node("if", payload)]);
    let r = render(&tree, &InstallActionType::INSTALL, &mut ctx, &mut env);
    match r {
        Err(RunError::InvalidCondition(c)) => assert_eq!(c, "justonestring"),
        other => panic!("expected an invalid-condition error, got {:?}", other),
    }
}

#[test]
fn conditional_with_omitted_branch_succeeds() {
    let mut env = MockEnv::new();
    let mut ctx = RunCtx::new();
    let payload = obj(vec![member("condition", text("a != a"))]);
    let tree = JsonValue::Array(vec![node("if", payload)]);
    let r = render(&tree, &InstallActionType::INSTALL, &mut ctx, &mut env);
    assert!(matches!(r, Ok(true)));
    assert!(env.spawned.is_empty());
}

#[test]
fn parallel_runs_every_task() {
    let mut env = MockEnv::new();
    let mut ctx = RunCtx::new();
    let payload = obj(vec![member(
        "run",
        JsonValue::Array(vec![exec_node("a"), exec_node("b"), exec_node("c")]),
    )]);
    let tree = JsonValue::Array(vec![node("paralel", payload)]);
    let r = render(&tree, &InstallActionType::INSTALL, &mut ctx, &mut env);
    assert!(matches!(r, Ok(true)));
    assert_eq!(env.spawned.len(), 3);
}

#[test]
fn parallel_soft_failure_still_runs_every_task() {
    let mut env = MockEnv::new();
    env.spawn_results = vec![Ok(true), Ok(false), Ok(true)];
    let mut ctx = RunCtx::new();
    let payload = obj(vec![member(
        "run",
        JsonValue::Array(vec![exec_node("a"), exec_node("b"), exec_node("c")]),
    )]);
    let tree = JsonValue::Array(vec![node("paralel", payload)]);
    let r = render(&tree, &InstallActionType::INSTALL, &mut ctx, &mut env);
    assert!(matches!(r, Ok(false)));
    assert_eq!(env.spawned.len(), 3);
}

#[test]
fn parallel_hard_error_carries_task_position() {
    let mut env = MockEnv::new();
    let mut ctx = RunCtx::new();
    let payload = obj(vec![member(
        "run",
        JsonValue::Array(vec![exec_node("a"), node("frobnicate", obj(Vec::new()))]),
    )]);
    let tree = JsonValue::Array(vec![node("paralel", payload)]);
    let r = render(&tree, &InstallActionType::INSTALL, &mut ctx, &mut env);
    match r {
        Err(RunError::TaskFailed { index, cause }) => {
            assert_eq!(index, 1);
            assert!(matches!(*cause, RunError::UnknownCommand(_)));
        },
        other => panic!("expected a task failure, got {:?}", other),
    }
}

#[test]
fn parallel_validates_every_element_before_spawning() {
    let mut env = MockEnv::new();
    let mut ctx = RunCtx::new();
    let two_keys = obj(vec![
        member("exec", obj(vec![member("install_run", text("a"))])),
        member("dir", obj(vec![member("path", text("/tmp/x"))])),
    ]);
    let payload = obj(vec![member("run", JsonValue::Array(vec![exec_node("a"), two_keys]))]);
    let tree = JsonValue::Array(vec![node("paralel", payload)]);
    let r = render(&tree, &InstallActionType::INSTALL, &mut ctx, &mut env);
    assert!(matches!(r, Err(RunError::InvalidNode)));
    assert!(env.spawned.is_empty());
}

#[test]
fn included_file_renders_exactly_once() {
    let mut env = MockEnv::new();
    env.configs.push((
        "/base/inc.json".to_string(),
        JsonValue::Array(vec![exec_node("marker")]),
    ));
    let mut ctx = RunCtx::new();
    ctx.vars.set("CONF_DIR", ScalarValue::Str("/base/".to_string()));
    let inc = node("include", obj(vec![member("config_path", text("inc.json"))]));
    let tree = JsonValue::Array(vec![json_clone(&inc), inc]);
    let r = render(&tree, &InstallActionType::INSTALL, &mut ctx, &mut env);
    assert!(matches!(r, Ok(true)));
    assert_eq!(env.spawned.len(), 1);
    assert_eq!(env.spawned[0].0, "marker");
    assert_eq!(env.loads, vec!["/base/inc.json".to_string()]);
}

#[test]
fn include_via_two_branches_renders_exactly_once() {
    let mut env = MockEnv::new();
    env.configs.push((
        "/base/inc.json".to_string(),
        JsonValue::Array(vec![exec_node("marker")]),
    ));
    env.configs.push((
        "/base/a.json".to_string(),
        JsonValue::Array(vec![node(
            "include",
            obj(vec![member("config_path", text("inc.json"))]),
        )]),
    ));
    env.configs.push((
        "/base/b.json".to_string(),
        JsonValue::Array(vec![node(
            "include",
            obj(vec![member("config_path", text("inc.json"))]),
        )]),
    ));
    let mut ctx = RunCtx::new();
    ctx.vars.set("CONF_DIR", ScalarValue::Str("/base/".to_string()));
    let tree = JsonValue::Array(vec![
        node("include", obj(vec![member("config_path", text("a.json"))])),
        node("include", obj(vec![member("config_path", text("b.json"))])),
    ]);
    let r = render(&tree, &InstallActionType::INSTALL, &mut ctx, &mut env);
    assert!(matches!(r, Ok(true)));
    assert_eq!(env.spawned.len(), 1);
    assert_eq!(env.spawned[0].0, "marker");
}

#[test]
fn include_without_base_directory_is_fatal() {
    let mut env = MockEnv::new();
    let mut ctx = RunCtx::new();
    let tree = JsonValue::Array(vec![node(
        "include",
        obj(vec![member("config_path", text("inc.json"))]),
    )]);
    let r = render(&tree, &InstallActionType::INSTALL, &mut ctx, &mut env);
    assert!(matches!(r, Err(RunError::MissingConfDir)));
}

#[test]
fn include_of_missing_file_is_fatal() {
    let mut env = MockEnv::new();
    let mut ctx = RunCtx::new();
    ctx.vars.set("CONF_DIR", ScalarValue::Str("/base/".to_string()));
    let tree = JsonValue::Array(vec![node(
        "include",
        obj(vec![member("config_path", text("gone.json"))]),
    )]);
    let r = render(&tree, &InstallActionType::INSTALL, &mut ctx, &mut env);
    assert!(matches!(r, Err(RunError::LoadFailed(_))));
}

#[test]
fn set_var_then_exec_expands_the_template() {
    let mut env = MockEnv::new();
    let mut ctx = RunCtx::new();
    let tree = JsonValue::Array(vec![
        node(
            "set_var",
            obj(vec![member("key", text("X")), member("value", text("hello"))]),
        ),
        exec_node("echo %X%"),
    ]);
    let r = render(&tree, &InstallActionType::INSTALL, &mut ctx, &mut env);
    assert!(matches!(r, Ok(true)));
    assert_eq!(env.spawned.len(), 1);
    let (program, args, dir) = &env.spawned[0];
    assert_eq!(program, "echo");
    assert_eq!(args, &vec!["hello".to_string()]);
    assert_eq!(dir, &None);
}

#[test]
fn actions_select_their_own_command_line() {
    let mut env = MockEnv::new();
    let mut ctx = RunCtx::new();
    let payload = obj(vec![
        member("install_run", text("ins")),
        member("uninstall_run", text("uns")),
        member("update_run", text("upd")),
    ]);
    let tree = JsonValue::Array(vec![node("exec", payload)]);
    let r = render(&tree, &InstallActionType::UNINSTALL, &mut ctx, &mut env);
    assert!(matches!(r, Ok(true)));
    assert_eq!(env.spawned[0].0, "uns");
}

#[test]
fn exec_with_empty_selected_line_is_vacuous() {
    let mut env = MockEnv::new();
    let mut ctx = RunCtx::new();
    let payload = obj(vec![member("install_run", text("ins"))]);
    let tree = JsonValue::Array(vec![node("exec", payload)]);
    let r = render(&tree, &InstallActionType::UNINSTALL, &mut ctx, &mut env);
    assert!(matches!(r, Ok(true)));
    assert!(env.spawned.is_empty());
}

#[test]
fn exec_with_unmatched_quote_is_fatal() {
    let mut env = MockEnv::new();
    let mut ctx = RunCtx::new();
    let tree = JsonValue::Array(vec![exec_node("run \"unclosed")]);
    let r = render(&tree, &InstallActionType::INSTALL, &mut ctx, &mut env);
    assert!(matches!(r, Err(RunError::CommandLineUnparsable(_))));
}

#[test]
fn exec_quoting_keeps_arguments_together() {
    let mut env = MockEnv::new();
    let mut ctx = RunCtx::new();
    let tree = JsonValue::Array(vec![exec_node("cp \"a file\" dest")]);
    let r = render(&tree, &InstallActionType::INSTALL, &mut ctx, &mut env);
    assert!(matches!(r, Ok(true)));
    let (program, args, _) = &env.spawned[0];
    assert_eq!(program, "cp");
    assert_eq!(args, &vec!["a file".to_string(), "dest".to_string()]);
}

#[test]
fn dir_command_only_acts_on_install() {
    let mut env = MockEnv::new();
    let mut ctx = RunCtx::new();
    let payload = obj(vec![member("path", text("/tmp/made"))]);
    let tree = JsonValue::Array(vec![node("dir", payload)]);
    let r = render(&tree, &InstallActionType::UNINSTALL, &mut ctx, &mut env);
    assert!(matches!(r, Ok(true)));
    assert!(env.dirs_made.is_empty());
    let tree2 = JsonValue::Array(vec![node("dir", obj(vec![member("path", text("/tmp/made"))]))]);
    let r2 = render(&tree2, &InstallActionType::INSTALL, &mut ctx, &mut env);
    assert!(matches!(r2, Ok(true)));
    assert_eq!(env.dirs_made, vec!["/tmp/made".to_string()]);
}

#[test]
fn dir_overwrite_removes_first() {
    let mut env = MockEnv::new();
    let mut ctx = RunCtx::new();
    let payload = obj(vec![
        member("path", text("/tmp/wipe")),
        member("should_overwrite", JsonValue::Bool(true)),
    ]);
    let tree = JsonValue::Array(vec![node("dir", payload)]);
    let r = render(&tree, &InstallActionType::INSTALL, &mut ctx, &mut env);
    assert!(matches!(r, Ok(true)));
    assert_eq!(env.dirs_removed, vec!["/tmp/wipe".to_string()]);
    assert_eq!(env.dirs_made, vec!["/tmp/wipe".to_string()]);
}

#[test]
fn dir_failure_is_fatal() {
    let mut env = MockEnv::new();
    env.fail_dir = true;
    let mut ctx = RunCtx::new();
    let tree = JsonValue::Array(vec![node("dir", obj(vec![member("path", text("/tmp/x"))]))]);
    let r = render(&tree, &InstallActionType::INSTALL, &mut ctx, &mut env);
    assert!(matches!(r, Err(RunError::DirFailed(_))));
}

#[test]
fn registry_write_expands_and_writes_on_install() {
    let mut env = MockEnv::new();
    let mut ctx = RunCtx::new();
    ctx.vars.set("V", ScalarValue::Str("deep".to_string()));
    let payload = obj(vec![
        member("reg_path", text("Software\\App")),
        member("key_name", text("Setting")),
        member("value", text("%V% value")),
    ]);
    let tree = JsonValue::Array(vec![node("set_reg_val", payload)]);
    let r = render(&tree, &InstallActionType::INSTALL, &mut ctx, &mut env);
    assert!(matches!(r, Ok(true)));
    assert_eq!(
        env.reg_written,
        vec![(
            "Software\\App".to_string(),
            "Setting".to_string(),
            "deep value".to_string()
        )]
    );
}

#[test]
fn registry_write_failure_is_fatal() {
    let mut env = MockEnv::new();
    env.fail_reg_write = true;
    let mut ctx = RunCtx::new();
    let payload = obj(vec![
        member("reg_path", text("Software\\App")),
        member("key_name", text("Setting")),
        member("value", text("v")),
    ]);
    let tree = JsonValue::Array(vec![node("reg_update", payload)]);
    let r = render(&tree, &InstallActionType::INSTALL, &mut ctx, &mut env);
    assert!(matches!(r, Err(RunError::RegistryFailed(_))));
}

#[test]
fn registry_read_binds_the_value() {
    let mut env = MockEnv::new();
    env.reg_strings.push((
        "Software\\App".to_string(),
        "Name".to_string(),
        "found".to_string(),
    ));
    let mut ctx = RunCtx::new();
    let payload = obj(vec![
        member("reg_path", text("Software\\App")),
        member("key_name", text("Name")),
        member("install_key", text("GOT")),
    ]);
    let tree = JsonValue::Array(vec![node("get_reg_val", payload), exec_node("echo %GOT%")]);
    let r = render(&tree, &InstallActionType::INSTALL, &mut ctx, &mut env);
    assert!(matches!(r, Ok(true)));
    assert_eq!(env.spawned[0].1, vec!["found".to_string()]);
}

#[test]
fn registry_read_failure_without_can_fail_is_fatal() {
    let mut env = MockEnv::new();
    let mut ctx = RunCtx::new();
    let payload = obj(vec![
        member("reg_path", text("Software\\App")),
        member("key_name", text("Absent")),
        member("install_key", text("GOT")),
    ]);
    let tree = JsonValue::Array(vec![node("get_reg_val", payload)]);
    let r = render(&tree, &InstallActionType::INSTALL, &mut ctx, &mut env);
    assert!(matches!(r, Err(RunError::RegistryFailed(_))));
}

#[test]
fn registry_read_failure_with_can_fail_warns_and_succeeds() {
    let mut env = MockEnv::new();
    let mut ctx = RunCtx::new();
    let payload = obj(vec![
        member("reg_path", text("Software\\App")),
        member("key_name", text("Absent")),
        member("install_key", text("GOT")),
        member("can_fail", JsonValue::Bool(true)),
    ]);
    let tree = JsonValue::Array(vec![node("get_reg_val", payload)]);
    let r = render(&tree, &InstallActionType::INSTALL, &mut ctx, &mut env);
    assert!(matches!(r, Ok(true)));
    assert_eq!(ctx.warnings.len(), 1);
}

#[test]
fn registry_delete_only_acts_on_install() {
    let mut env = MockEnv::new();
    let mut ctx = RunCtx::new();
    let payload = obj(vec![
        member("reg_path", text("Software\\App")),
        member("key_name", text("Old")),
    ]);
    let tree = JsonValue::Array(vec![node("delete_reg_key", payload)]);
    let r = render(&tree, &InstallActionType::UPDATE, &mut ctx, &mut env);
    assert!(matches!(r, Ok(true)));
    assert!(env.reg_deleted.is_empty());
}

#[test]
fn winget_builds_the_action_verb_line() {
    let mut env = MockEnv::new();
    let mut ctx = RunCtx::new();
    let tree = JsonValue::Array(vec![node(
        "winget",
        obj(vec![member("package", text("Some.Package"))]),
    )]);
    let r = render(&tree, &InstallActionType::UPDATE, &mut ctx, &mut env);
    assert!(matches!(r, Ok(true)));
    let (program, args, _) = &env.spawned[0];
    assert_eq!(program, "cmd");
    assert_eq!(
        args,
        &vec![
            "/C".to_string(),
            "winget update --accept-package-agreements Some.Package".to_string()
        ]
    );
}

#[test]
fn winget_off_windows_is_fatal() {
    let mut env = MockEnv::new();
    env.windows = false;
    let mut ctx = RunCtx::new();
    let tree = JsonValue::Array(vec![node(
        "winget",
        obj(vec![member("package", text("Some.Package"))]),
    )]);
    let r = render(&tree, &InstallActionType::INSTALL, &mut ctx, &mut env);
    assert!(matches!(r, Err(RunError::UnsupportedPlatform)));
    assert!(env.spawned.is_empty());
}

#[test]
fn vcpkg_runs_through_powershell_with_prelude() {
    let mut env = MockEnv::new();
    let mut ctx = RunCtx::new();
    let tree = JsonValue::Array(vec![node("vcpkg", obj(vec![member("module", text("fmt"))]))]);
    let r = render(&tree, &InstallActionType::INSTALL, &mut ctx, &mut env);
    assert!(matches!(r, Ok(true)));
    let (program, args, _) = &env.spawned[0];
    assert_eq!(program, "powershell");
    assert_eq!(args.len(), 3);
    assert_eq!(args[0], "-Command");
    assert_eq!(args[2], "vcpkg install fmt");
}

#[test]
fn ps1_spawn_failure_is_a_soft_failure() {
    let mut env = MockEnv::new();
    env.spawn_results = vec![Err("no powershell here".to_string())];
    let mut ctx = RunCtx::new();
    let tree = JsonValue::Array(vec![node(
        "ps1",
        obj(vec![member("install_run", text("Do-Thing arg"))]),
    )]);
    let r = render(&tree, &InstallActionType::INSTALL, &mut ctx, &mut env);
    assert!(matches!(r, Ok(false)));
}

#[test]
fn ps1_without_preparse_hands_the_line_over_whole() {
    let mut env = MockEnv::new();
    let mut ctx = RunCtx::new();
    let payload = obj(vec![
        member("install_run", text("Do-Thing a b")),
        member("preparse", JsonValue::Bool(false)),
    ]);
    let tree = JsonValue::Array(vec![node("ps1", payload)]);
    let r = render(&tree, &InstallActionType::INSTALL, &mut ctx, &mut env);
    assert!(matches!(r, Ok(true)));
    let (program, args, _) = &env.spawned[0];
    assert_eq!(program, "powershell");
    assert_eq!(args, &vec!["-Command".to_string(), "Do-Thing a b".to_string()]);
}

#[test]
fn ps1_refresh_env_prepends_the_prelude() {
    let mut env = MockEnv::new();
    let mut ctx = RunCtx::new();
    let payload = obj(vec![
        member("install_run", text("Do-Thing")),
        member("refresh_env", JsonValue::Bool(true)),
    ]);
    let tree = JsonValue::Array(vec![node("ps1", payload)]);
    let r = render(&tree, &InstallActionType::INSTALL, &mut ctx, &mut env);
    assert!(matches!(r, Ok(true)));
    let (_, args, _) = &env.spawned[0];
    assert_eq!(args.len(), 3);
    assert_eq!(args[0], "-Command");
    assert_eq!(args[1], quick_setup::commands::common::REFRESHENV_COMMAND);
    assert_eq!(args[2], "Do-Thing");
}

#[test]
fn set_var_rejects_null_values() {
    let mut env = MockEnv::new();
    let mut ctx = RunCtx::new();
    let payload = obj(vec![member("key", text("K")), member("value", JsonValue::Null)]);
    let tree = JsonValue::Array(vec![node("set_var", payload)]);
    let r = render(&tree, &InstallActionType::INSTALL, &mut ctx, &mut env);
    assert!(matches!(r, Err(RunError::UnsupportedValueType)));
}

#[test]
fn set_var_without_value_is_fatal() {
    let mut env = MockEnv::new();
    let mut ctx = RunCtx::new();
    let payload = obj(vec![member("key", text("K"))]);
    let tree = JsonValue::Array(vec![node("set_var", payload)]);
    let r = render(&tree, &InstallActionType::INSTALL, &mut ctx, &mut env);
    match r {
        Err(RunError::MissingField(f)) => assert_eq!(f, "value"),
        other => panic!("expected a missing-field error, got {:?}", other),
    }
}

#[test]
fn exec_missing_install_run_is_fatal() {
    let mut env = MockEnv::new();
    let mut ctx = RunCtx::new();
    let tree = JsonValue::Array(vec![node("exec", obj(Vec::new()))]);
    let r = render(&tree, &InstallActionType::INSTALL, &mut ctx, &mut env);
    match r {
        Err(RunError::MissingField(f)) => assert_eq!(f, "install_run"),
        other => panic!("expected a missing-field error, got {:?}", other),
    }
}

#[test]
fn dir_path_of_wrong_type_is_fatal() {
    let mut env = MockEnv::new();
    let mut ctx = RunCtx::new();
    let tree = JsonValue::Array(vec![node("dir", obj(vec![member("path", JsonValue::UInt(5))]))]);
    let r = render(&tree, &InstallActionType::INSTALL, &mut ctx, &mut env);
    match r {
        Err(RunError::WrongFieldType(f)) => assert_eq!(f, "path"),
        other => panic!("expected a wrong-type error, got {:?}", other),
    }
}

#[test]
fn string_payload_is_not_an_object() {
    let mut env = MockEnv::new();
    let mut ctx = RunCtx::new();
    let tree = JsonValue::Array(vec![node("exec", text("oops"))]);
    let r = render(&tree, &InstallActionType::INSTALL, &mut ctx, &mut env);
    assert!(matches!(r, Err(RunError::PayloadNotObject)));
}

#[test]
fn nested_parallel_nodes_run_their_leaves() {
    let mut env = MockEnv::new();
    let mut ctx = RunCtx::new();
    let inner = node(
        "paralel",
        obj(vec![member("run", JsonValue::Array(vec![exec_node("x"), exec_node("y")]))]),
    );
    let payload = obj(vec![member("run", JsonValue::Array(vec![inner, exec_node("z")]))]);
    let tree = JsonValue::Array(vec![node("paralel", payload)]);
    let r = render(&tree, &InstallActionType::INSTALL, &mut ctx, &mut env);
    assert!(matches!(r, Ok(true)));
    assert_eq!(env.spawned.len(), 3);
}
