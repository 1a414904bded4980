use scu::errors::ScuError;
use scu::interpreter::Interpreter;
use scu::script::Script;

fn strings(v: &[&str]) -> Vec<String> {
    v.iter().map(|s| s.to_string()).collect()
}

fn render(interpreter: Interpreter, command: &[&str]) -> String {
    Script::new(&interpreter, strings(command)).unwrap().render()
}

#[test]
fn bash_quotes_only_spaced_tokens() {
    let text = render(Interpreter::Bash, &["run me", "a", "b c"]);
    assert_eq!(text, "#!/bin/sh\n\"run me\" a \"b c\" \"$@\"\nexit $?");
    let line = text.lines().nth(1).unwrap();
    assert_eq!(line, "\"run me\" a \"b c\" \"$@\"");
}

#[test]
fn python_quotes_every_element() {
    let text = render(Interpreter::Python, &["run me", "a", "b c"]);
    assert!(text.contains("[\"run me\", \"a\", \"b c\"]"));
    assert_eq!(
        text,
        "#!/usr/bin/env python\nfrom subprocess import run\nfrom sys import argv\n\n\
         program = [\"run me\", \"a\", \"b c\"]\n\n\
         code = run(program + argv[1:]).returncode\nexit(code)"
    );
}

#[test]
fn pythonw_uses_its_own_shebang() {
    let text = render(Interpreter::Pythonw, &["tool"]);
    assert!(text.starts_with("#!/usr/bin/env pythonw\n"));
    assert!(text.contains("program = [\"tool\"]\n"));
}

#[test]
fn cmd_template() {
    let text = render(Interpreter::Cmd, &["C:\\Program Files\\x.exe", "-v"]);
    assert_eq!(text, "@ECHO off\n\"C:\\Program Files\\x.exe\" -v %*\nEXIT /b %errorlevel%");
}

#[test]
fn powershell_quotes_the_program_always() {
    let text = render(Interpreter::Powershell, &["git", "status", "my file"]);
    assert_eq!(text, "& \"git\" status \"my file\" $args\nexit $LASTEXITCODE");
}

#[test]
fn program_without_arguments() {
    assert_eq!(render(Interpreter::Bash, &["ls"]), "#!/bin/sh\nls \"$@\"\nexit $?");
    assert_eq!(render(Interpreter::Powershell, &["ls"]), "& \"ls\" $args\nexit $LASTEXITCODE");
}

#[test]
fn empty_command_is_rejected() {
    assert!(matches!(Script::new(&Interpreter::Bash, vec![]), Err(ScuError::EmptyCommand)));
}

#[test]
fn script_splits_program_and_arguments() {
    let s = Script::new(&Interpreter::Cmd, strings(&["a", "b", "c"])).unwrap();
    assert_eq!(s.interpreter, Interpreter::Cmd);
    assert_eq!(s.binary, "a");
    assert_eq!(s.args, strings(&["b", "c"]));
    assert_eq!(s.tokens(), strings(&["a", "b", "c"]));
}

#[test]
fn python_escapes_backslashes_and_quotes() {
    let text = render(Interpreter::Python, &["C:\\tools\\x.exe", "say \"hi\""]);
    assert!(text.contains("program = [\"C:\\\\tools\\\\x.exe\", \"say \\\"hi\\\"\"]\n"));
}
