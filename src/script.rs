use vstd::prelude::*;

use crate::errors::ScuError;
use crate::interpreter::Interpreter;
use crate::text::{join, joined, python_literals, python_tokens, quote, quote_tokens, quoted, quoted_tokens};

verus! {

/// The command line of a shell-style launcher: tokens quoted only where they
/// hold a space, separated by single spaces.
pub open spec fn shell_line(tokens: Seq<Seq<char>>) -> Seq<char> {
    joined(quoted_tokens(tokens), " "@)
}

/// The elements of a Python list literal: every token a quoted string
/// literal, comma-separated.
pub open spec fn list_items(tokens: Seq<Seq<char>>) -> Seq<char> {
    joined(python_literals(tokens), ", "@)
}

/// The PowerShell call: the program always quoted, the arguments only where
/// they hold a space.
pub open spec fn powershell_line(tokens: Seq<Seq<char>>) -> Seq<char> {
    joined(seq![quoted(tokens[0])] + quoted_tokens(tokens.drop_first()), " "@)
}

/// The full text of the launcher for `interpreter` that runs `tokens`
/// (the program first, then its arguments) and forwards its own arguments.
pub open spec fn launcher_text(interpreter: Interpreter, tokens: Seq<Seq<char>>) -> Seq<char> {
    match interpreter {
        Interpreter::Bash => "#!/bin/sh\n"@ + shell_line(tokens) + " \"$@\"\nexit $?"@,
        Interpreter::Cmd => "@ECHO off\n"@ + shell_line(tokens) + " %*\nEXIT /b %errorlevel%"@,
        Interpreter::Python => "#!/usr/bin/env python\nfrom subprocess import run\nfrom sys import argv\n\nprogram = ["@
            + list_items(tokens)
            + "]\n\ncode = run(program + argv[1:]).returncode\nexit(code)"@,
        Interpreter::Pythonw => "#!/usr/bin/env pythonw\nfrom subprocess import run\nfrom sys import argv\n\nprogram = ["@
            + list_items(tokens)
            + "]\n\ncode = run(program + argv[1:]).returncode\nexit(code)"@,
        Interpreter::Powershell => "& "@ + powershell_line(tokens) + " $args\nexit $LASTEXITCODE"@,
    }
}

/// A launcher to be generated: the target interpreter, the program and its arguments.
#[derive(Debug)]
pub struct Script {
    pub interpreter: Interpreter,
    pub binary: String,
    pub args: Vec<String>,
}

impl Script {
    /// The program followed by its arguments.
    pub open spec fn spec_tokens(&self) -> Seq<Seq<char>> {
        seq![self.binary@] + self.args.deep_view()
    }

    /// Splits a command into its program and arguments; an empty command has no program.
    pub fn new(interpreter: &Interpreter, command: Vec<String>) -> (r: Result<Script, ScuError>)
        ensures
            command.len() == 0 ==> r == Err::<Script, ScuError>(ScuError::EmptyCommand),
            command.len() > 0 ==> r is Ok,
            r matches Ok(s) ==> s.interpreter == *interpreter && s.spec_tokens()
                == command.deep_view(),
    {
        if command.len() == 0 {
            return Err(ScuError::EmptyCommand);
        }
        let mut args = command;
        let binary = args.remove(0);
        let s = Script { interpreter: *interpreter, binary, args };
        assert(s.spec_tokens() =~= command.deep_view());
        Ok(s)
    }

    /// The program followed by its arguments.
    pub fn tokens(&self) -> (r: Vec<String>)
        ensures
            r.deep_view() == self.spec_tokens(),
    {
        let mut r: Vec<String> = Vec::new();
        r.push(self.binary.clone());
        let mut i: usize = 0;
        while i < self.args.len()
            invariant
                i <= self.args.len(),
                r.len() == i + 1,
                r@[0]@ == self.binary@,
                forall|j: int| 0 <= j < i ==> (#[trigger] r@[j + 1])@ == self.args@[j]@,
            decreases self.args.len() - i,
        {
            r.push(self.args[i].clone());
            i = i + 1;
        }
        assert forall|k: int| 1 <= k < r.len() implies r@[k]@ == self.args@[k - 1]@ by {
            assert(r@[(k - 1) + 1] == r@[k]);
        }
        assert(r.deep_view() =~= self.spec_tokens());
        r
    }

    /// The literal text of the launcher.
    pub fn render(&self) -> (r: String)
        ensures
            r@ == launcher_text(self.interpreter, self.spec_tokens()),
    {
        let tokens = self.tokens();
        match self.interpreter {
            Interpreter::Bash => {
                let mut r = String::from_str("#!/bin/sh\n");
                let line = join(&quote_tokens(&tokens), " ");
                r.append(line.as_str());
                r.append(" \"$@\"\nexit $?");
                r
            },
            Interpreter::Cmd => {
                let mut r = String::from_str("@ECHO off\n");
                let line = join(&quote_tokens(&tokens), " ");
                r.append(line.as_str());
                r.append(" %*\nEXIT /b %errorlevel%");
                r
            },
            Interpreter::Python => {
                let mut r = String::from_str(
                    "#!/usr/bin/env python\nfrom subprocess import run\nfrom sys import argv\n\nprogram = [",
                );
                let items = join(&python_tokens(&tokens), ", ");
                r.append(items.as_str());
                r.append("]\n\ncode = run(program + argv[1:]).returncode\nexit(code)");
                r
            },
            Interpreter::Pythonw => {
                let mut r = String::from_str(
                    "#!/usr/bin/env pythonw\nfrom subprocess import run\nfrom sys import argv\n\nprogram = [",
                );
                let items = join(&python_tokens(&tokens), ", ");
                r.append(items.as_str());
                r.append("]\n\ncode = run(program + argv[1:]).returncode\nexit(code)");
                r
            },
            Interpreter::Powershell => {
                let mut parts: Vec<String> = Vec::new();
                parts.push(quote(self.binary.as_str()));
                let mut quoted_args = quote_tokens(&self.args);
                parts.append(&mut quoted_args);
                proof {
                    assert(self.spec_tokens().drop_first() =~= self.args.deep_view());
                    assert(parts.deep_view() =~= seq![quoted(self.spec_tokens()[0])]
                        + quoted_tokens(self.spec_tokens().drop_first()));
                }
                let mut r = String::from_str("& ");
                let line = join(&parts, " ");
                r.append(line.as_str());
                r.append(" $args\nexit $LASTEXITCODE");
                r
            },
        }
    }
}

} // verus!
