use scu::controller::Controller;
use scu::errors::ScuError;
use scu::interpreter::Interpreter;
use scu::paths::{FileWrite, FsPath, PathComponent};
use scu::platform::Platform;
use scu::shortcut::{Shortcut, ShortcutBody};

fn strings(v: &[&str]) -> Vec<String> {
    v.iter().map(|s| s.to_string()).collect()
}

fn normal(s: &str) -> PathComponent {
    PathComponent::Normal(s.to_string())
}

fn posix_controller() -> Controller {
    Controller::new(
        FsPath::new(vec![PathComponent::RootDir, normal("opt"), normal("tool")]),
        Platform::Posix,
    )
}

fn windows_controller() -> Controller {
    Controller::new(
        FsPath::new(vec![
            PathComponent::Prefix("D:".to_string()),
            PathComponent::RootDir,
            normal("tool"),
        ]),
        Platform::Windows,
    )
}

fn windows_home() -> FsPath {
    FsPath::new(vec![
        PathComponent::Prefix("C:".to_string()),
        PathComponent::RootDir,
        normal("Users"),
        normal("me"),
    ])
}

fn shortcut(name: &str, interpreters: Option<Vec<Interpreter>>, cmd: &[&str]) -> Shortcut {
    Shortcut::builder().name(name).interpreters(interpreters).command(strings(cmd)).build().unwrap()
}

fn paths(writes: &[FileWrite]) -> Vec<String> {
    writes.iter().map(|w| scu::paths::stringify(&w.path, "/")).collect()
}

#[test]
fn layout_under_the_data_directory() {
    let c = posix_controller();
    assert_eq!(scu::paths::stringify(&c.meta_dir(), "/"), "/opt/tool/scu_data/meta");
    assert_eq!(scu::paths::stringify(&c.bin_dir(), "/"), "/opt/tool/scu_data/bin");
    assert_eq!(scu::paths::stringify(&c.res_dir(), "/"), "/opt/tool/scu_data/res");
    assert_eq!(scu::paths::stringify(&c.shortcut_path("hello"), "/"), "/opt/tool/scu_data/meta/hello.toml");
}

#[test]
fn new_shortcut_file_binds_the_metadata_path() {
    let c = posix_controller();
    let stored = c.new_shortcut_file("hi", shortcut("hi", None, &["echo"]));
    assert_eq!(scu::paths::stringify(&stored.path, "/"), "/opt/tool/scu_data/meta/hi.toml");
    assert_eq!(stored.shortcut.name, "hi");
}

#[test]
fn create_resource_keeps_the_file_name() {
    let c = posix_controller();
    let src = FsPath::new(vec![normal("scripts"), normal("job.py")]);
    let r = c.create_resource(&src).unwrap();
    assert_eq!(scu::paths::stringify(&r, "/"), "/opt/tool/scu_data/res/job.py");
    let bad = FsPath::new(vec![normal("scripts"), PathComponent::ParentDir]);
    assert!(matches!(c.create_resource(&bad), Err(ScuError::MissingFileName)));
}

#[test]
fn override_list_wins_over_record_list() {
    let c = posix_controller();
    let s = shortcut("x", Some(vec![Interpreter::Python]), &["run"]);
    let over = strings(&["Bash"]);
    let writes = c.make(&s, Some(&over)).unwrap();
    assert_eq!(paths(&writes), vec!["/opt/tool/scu_data/bin/x"]);
    assert_eq!(writes[0].contents, "#!/bin/sh\nrun \"$@\"\nexit $?");
}

#[test]
fn record_list_wins_over_registry() {
    let c = posix_controller();
    let s = shortcut("x", Some(vec![Interpreter::Python]), &["run"]);
    let writes = c.make(&s, None).unwrap();
    assert_eq!(paths(&writes), vec!["/opt/tool/scu_data/bin/x.py"]);
    assert!(writes[0].contents.contains("program = [\"run\"]"));
}

#[test]
fn registry_used_when_no_list_is_given() {
    let c = windows_controller();
    let s = shortcut("x", None, &["run"]);
    let writes = c.make(&s, None).unwrap();
    assert_eq!(
        writes.iter().map(|w| scu::paths::stringify(&w.path, "\\")).collect::<Vec<_>>(),
        vec![
            "D:\\tool\\scu_data\\bin\\x.sh",
            "D:\\tool\\scu_data\\bin\\x.bat",
            "D:\\tool\\scu_data\\bin\\x.py",
            "D:\\tool\\scu_data\\bin\\x.pyw",
            "D:\\tool\\scu_data\\bin\\x.ps1",
        ]
    );
    assert_eq!(writes[1].contents, "@ECHO off\nrun %*\nEXIT /b %errorlevel%");
}

#[test]
fn empty_override_list_renders_nothing() {
    let c = posix_controller();
    let s = shortcut("x", None, &["run"]);
    let none: Vec<String> = vec![];
    assert!(c.make(&s, Some(&none)).unwrap().is_empty());
}

#[test]
fn make_writes_the_resource_first() {
    let c = posix_controller();
    let s = Shortcut::builder()
        .name("job")
        .interpreters(Some(vec![Interpreter::Cmd]))
        .command_script(
            strings(&["python"]),
            FsPath::new(vec![PathComponent::RootDir, normal("r"), normal("job.py")]),
            "print(3)",
            None,
        )
        .unwrap()
        .build()
        .unwrap();
    let writes = c.make(&s, None).unwrap();
    assert_eq!(paths(&writes), vec!["/r/job.py", "/opt/tool/scu_data/bin/job.bat"]);
    assert_eq!(writes[0].contents, "print(3)");
    assert_eq!(writes[1].contents, "@ECHO off\npython /r/job.py %*\nEXIT /b %errorlevel%");
}

#[test]
fn make_rejects_unknown_override() {
    let c = posix_controller();
    let s = shortcut("x", None, &["run"]);
    let over = strings(&["bash", "fish"]);
    assert_eq!(c.make(&s, Some(&over)).err(), Some(ScuError::UnknownInterpreter("fish".to_string())));
}

#[test]
fn make_rejects_empty_command() {
    let c = posix_controller();
    let s = shortcut("x", None, &[]);
    assert_eq!(c.make(&s, None).err(), Some(ScuError::EmptyCommand));
}

#[test]
fn batch_make_continues_past_a_failed_name() {
    let c = posix_controller();
    let first = shortcut("one", Some(vec![Interpreter::Bash]), &["a"]);
    let third = shortcut("three", Some(vec![Interpreter::Bash]), &["c"]);
    let loaded: Vec<Result<Shortcut, ScuError>> = vec![
        Ok(first),
        Err(ScuError::IoError("missing.toml: not found".to_string())),
        Ok(third),
    ];
    let mut rendered: Vec<String> = vec![];
    let mut outcomes: Vec<Result<bool, ScuError>> = vec![];
    for item in &loaded {
        let outcome = match item {
            Ok(s) => c.make(s, None).map(|ws| {
                rendered.extend(paths(&ws));
                true
            }),
            Err(e) => Err(e.clone()),
        };
        outcomes.push(outcome);
    }
    assert_eq!(c.operate_many(&outcomes), 2);
    assert_eq!(rendered, vec!["/opt/tool/scu_data/bin/one", "/opt/tool/scu_data/bin/three"]);
}

#[test]
fn operate_many_counts_changes_only() {
    let c = posix_controller();
    let outcomes: Vec<Result<bool, ScuError>> =
        vec![Ok(true), Ok(false), Err(ScuError::EmptyCommand), Ok(true), Ok(true)];
    assert_eq!(c.operate_many(&outcomes), 3);
    assert_eq!(c.operate_many(&vec![]), 0);
}

#[test]
fn startup_set_changes_only_once_without_force() {
    let c = windows_controller();
    let home = windows_home();
    let mut s = shortcut("x", None, &["run", "a b"]);
    let w = c.startup_set(&mut s, false, Some(&home)).unwrap().unwrap();
    assert_eq!(
        scu::paths::stringify(&w.path, "\\"),
        "C:\\Users\\me\\AppData\\Roaming\\Microsoft\\Windows\\Start Menu\\Programs\\Startup\\x.bat"
    );
    assert_eq!(w.contents, "@ECHO off\nrun \"a b\" %*\nEXIT /b %errorlevel%");
    let reference = s.startup.as_ref().unwrap();
    assert_eq!(scu::paths::stringify(&reference.0, "\\"), scu::paths::stringify(&w.path, "\\"));
    assert!(c.startup_set(&mut s, false, Some(&home)).unwrap().is_none());
    assert!(s.startup.is_some());
    assert!(c.startup_set(&mut s, true, Some(&home)).unwrap().is_some());
}

#[test]
fn startup_quit_after_set_clears_the_reference() {
    let c = windows_controller();
    let home = windows_home();
    let mut s = shortcut("x", None, &["run"]);
    let w = c.startup_set(&mut s, false, Some(&home)).unwrap().unwrap();
    let removed = c.startup_quit(&mut s).unwrap().unwrap();
    assert_eq!(scu::paths::stringify(&removed, "\\"), scu::paths::stringify(&w.path, "\\"));
    assert!(s.startup.is_none());
    assert!(c.startup_quit(&mut s).unwrap().is_none());
}

#[test]
fn startup_quit_with_nothing_set_is_no_change() {
    let c = windows_controller();
    let mut s = shortcut("x", None, &["run"]);
    assert!(c.startup_quit(&mut s).unwrap().is_none());
    assert!(s.startup.is_none());
}

#[test]
fn startup_unsupported_on_posix() {
    let c = posix_controller();
    let mut s = shortcut("x", None, &["run"]);
    assert_eq!(c.startup_set(&mut s, false, Some(&windows_home())).err(), Some(ScuError::UnsupportedPlatform));
    assert_eq!(c.startup_quit(&mut s).err(), Some(ScuError::UnsupportedPlatform));
    assert!(s.startup.is_none());
}

#[test]
fn startup_set_needs_a_home_directory() {
    let c = windows_controller();
    let mut s = shortcut("x", None, &["run"]);
    assert!(matches!(c.startup_set(&mut s, false, None), Err(ScuError::IoError(_))));
    assert!(s.startup.is_none());
}

#[test]
fn startup_set_rejects_empty_command() {
    let c = windows_controller();
    let mut s = shortcut("x", None, &[]);
    assert_eq!(c.startup_set(&mut s, false, Some(&windows_home())).err(), Some(ScuError::EmptyCommand));
    assert!(s.startup.is_none());
}

#[test]
fn delete_matches_by_file_name_or_stored_name() {
    let c = posix_controller();
    let names = strings(&["a.toml", "b"]);
    assert!(c.delete_matches(&names, "a.toml", None, true));
    assert!(!c.delete_matches(&names, "a", None, true));
    assert!(!c.delete_matches(&names, "b.toml", Some(&"b".to_string()), true));
    assert!(c.delete_matches(&names, "x.toml", Some(&"b".to_string()), false));
    assert!(!c.delete_matches(&names, "b.toml", Some(&"bb".to_string()), false));
    assert!(!c.delete_matches(&names, "b", None, false));
}
