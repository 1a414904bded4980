use vstd::prelude::*;

use crate::errors::ScuError;
use crate::interpreter::Interpreter;
use crate::text::{copy_all, join, joined, quote_tokens, quoted_tokens};

verus! {

/// A shortcut record in its plain form: a name, an optional interpreter
/// override and a command, with neither script resource nor autorun entry.
#[derive(Debug)]
pub struct ShortcutFile {
    pub name: String,
    pub override_interpreters: Option<Vec<Interpreter>>,
    pub body: ShortcutFileBody,
}

impl ShortcutFile {
    pub fn builder() -> (r: ShortcutFileBuilder)
        ensures
            r.name is None,
            r.override_interpreters is None,
            r.body is None,
    {
        ShortcutFileBuilder::new()
    }
}

/// What a plain shortcut record runs: a program followed by its arguments.
#[derive(Debug)]
pub enum ShortcutFileBody {
    Command(Vec<String>),
}

impl ShortcutFileBody {
    pub open spec fn spec_command(&self) -> Seq<Seq<char>> {
        match self {
            ShortcutFileBody::Command(cmd) => cmd.deep_view(),
        }
    }

    pub fn command(&self) -> (r: Vec<String>)
        ensures
            r.deep_view() == self.spec_command(),
    {
        match self {
            ShortcutFileBody::Command(cmd) => copy_all(cmd),
        }
    }

    /// The command as one line, each token quoted when it holds a space.
    pub fn display_text(&self) -> (r: String)
        ensures
            r@ == joined(quoted_tokens(self.spec_command()), " "@),
    {
        match self {
            ShortcutFileBody::Command(cmd) => join(&quote_tokens(cmd), " "),
        }
    }
}

/// Assembles a plain record field by field; `build` checks that the name and body were set.
#[derive(Debug)]
pub struct ShortcutFileBuilder {
    pub name: Option<String>,
    pub override_interpreters: Option<Vec<Interpreter>>,
    pub body: Option<ShortcutFileBody>,
}

impl ShortcutFileBuilder {
    pub fn new() -> (r: Self)
        ensures
            r.name is None,
            r.override_interpreters is None,
            r.body is None,
    {
        ShortcutFileBuilder { name: None, override_interpreters: None, body: None }
    }

    pub fn name(self, name: &str) -> (r: Self)
        ensures
            r.name matches Some(n) && n@ == name@,
            r.override_interpreters == self.override_interpreters,
            r.body == self.body,
    {
        let mut b = self;
        b.name = Some(String::from_str(name));
        b
    }

    pub fn override_interpreters(self, interpreters: Option<Vec<Interpreter>>) -> (r: Self)
        ensures
            r.name == self.name,
            r.override_interpreters == interpreters,
            r.body == self.body,
    {
        let mut b = self;
        b.override_interpreters = interpreters;
        b
    }

    pub fn command(self, command: Vec<String>) -> (r: Self)
        ensures
            r.name == self.name,
            r.override_interpreters == self.override_interpreters,
            r.body == Some(ShortcutFileBody::Command(command)),
    {
        let mut b = self;
        b.body = Some(ShortcutFileBody::Command(command));
        b
    }

    /// The record; fails when the name or body is unset.
    pub fn build(self) -> (r: Result<ShortcutFile, ScuError>)
        ensures
            self.name is None || self.body is None ==> r == Err::<ShortcutFile, ScuError>(
                ScuError::IncompleteShortcut,
            ),
            self.name is Some && self.body is Some ==> r is Ok,
            r matches Ok(f) ==> Some(f.name) == self.name && f.override_interpreters
                == self.override_interpreters && Some(f.body) == self.body,
    {
        match (self.name, self.body) {
            (Some(name), Some(body)) => Ok(
                ShortcutFile { name, override_interpreters: self.override_interpreters, body },
            ),
            _ => Err(ScuError::IncompleteShortcut),
        }
    }
}

} // verus!
