use vstd::prelude::*;

use crate::errors::ScuError;
use crate::interpreter::{
    collect_error,
    collect_ok,
    collected,
    interpreters_view,
    names_view,
    Interpreter,
};
use crate::paths::{stringified, FileWrite, FsPath};
use crate::platform::Platform;
use crate::script::Script;
use crate::startup::StartupReference;
use crate::text::{copy_all, join, joined, quote_tokens, quoted_tokens};

verus! {

/// Where the resource path goes in the command: at the offset when it is
/// given and inside the command, else at the end.
pub open spec fn insert_index(offset: Option<u8>, len: int) -> int {
    match offset {
        Some(o) if o as int <= len => o as int,
        _ => len,
    }
}

/// What a shortcut runs.
#[derive(Debug)]
pub enum ShortcutBody {
    /// A program followed by its arguments.
    Command(Vec<String>),
    /// A command backed by a script resource: `body` is written to `script`,
    /// and the path of `script` is inserted into `cmd` at `script_offset`.
    CommandWithScript { cmd: Vec<String>, script: FsPath, script_offset: Option<u8>, body: String },
}

impl ShortcutBody {
    /// The effective command: for a script-backed body, the command with the
    /// resource path inserted as one token.
    pub open spec fn spec_command(&self, platform: Platform) -> Seq<Seq<char>> {
        match self {
            ShortcutBody::Command(cmd) => cmd.deep_view(),
            ShortcutBody::CommandWithScript { cmd, script, script_offset, .. } => cmd.deep_view().insert(
                insert_index(*script_offset, cmd.len() as int),
                stringified(script@, platform.spec_script_separator()),
            ),
        }
    }

    /// The resource file that must exist before the command can run, if any.
    pub open spec fn spec_resource(&self) -> Option<(Seq<crate::paths::ComponentView>, Seq<char>)> {
        match self {
            ShortcutBody::Command(_) => None,
            ShortcutBody::CommandWithScript { script, body, .. } => Some((script@, body@)),
        }
    }

    pub fn command(&self, platform: Platform) -> (r: Vec<String>)
        ensures
            r.deep_view() == self.spec_command(platform),
    {
        match self {
            ShortcutBody::Command(cmd) => copy_all(cmd),
            ShortcutBody::CommandWithScript { cmd, script, script_offset, .. } => {
                let mut command = copy_all(cmd);
                let index: usize = match script_offset {
                    Some(o) if (*o as usize) <= command.len() => *o as usize,
                    _ => command.len(),
                };
                let path = crate::paths::stringify(script, platform.script_separator());
                let ghost before = command.deep_view();
                command.insert(index, path);
                assert(command.deep_view() =~= before.insert(index as int, path@));
                command
            },
        }
    }

    /// The write that materializes the script resource; none for a plain command.
    pub fn resource_write(&self) -> (r: Option<FileWrite>)
        ensures
            r matches Some(w) ==> self.spec_resource() == Some(w@),
            r is None ==> self.spec_resource() is None,
    {
        match self {
            ShortcutBody::Command(_) => None,
            ShortcutBody::CommandWithScript { script, body, .. } => Some(
                FileWrite { path: script.duplicate(), contents: body.clone() },
            ),
        }
    }

    /// The effective command as one line, each token quoted when it holds a space.
    pub fn display_text(&self, platform: Platform) -> (r: String)
        ensures
            r@ == joined(quoted_tokens(self.spec_command(platform)), " "@),
    {
        let command = self.command(platform);
        join(&quote_tokens(&command), " ")
    }
}

/// A named shortcut: its command, an optional interpreter override, and the
/// autorun launcher registered for it, if any.
#[derive(Debug)]
pub struct Shortcut {
    pub name: String,
    pub interpreters: Option<Vec<Interpreter>>,
    pub body: ShortcutBody,
    pub startup: Option<StartupReference>,
}

impl Shortcut {
    pub fn builder() -> (r: ShortcutBuilder)
        ensures
            r.name is None,
            r.interpreters is None,
            r.body is None,
    {
        ShortcutBuilder::new()
    }

    /// The launcher for `interpreter` that runs the effective command.
    pub fn script(&self, interpreter: &Interpreter, platform: Platform) -> (r: Result<Script, ScuError>)
        ensures
            self.body.spec_command(platform).len() == 0 ==> r == Err::<Script, ScuError>(
                ScuError::EmptyCommand,
            ),
            self.body.spec_command(platform).len() > 0 ==> r is Ok,
            r matches Ok(s) ==> s.interpreter == *interpreter && s.spec_tokens()
                == self.body.spec_command(platform),
    {
        Script::new(interpreter, self.body.command(platform))
    }

    pub fn update_startup_reference(&mut self, startup: Option<StartupReference>)
        ensures
            final(self).startup == startup,
            final(self).name == old(self).name,
            final(self).interpreters == old(self).interpreters,
            final(self).body == old(self).body,
    {
        self.startup = startup;
    }
}

/// Assembles a shortcut field by field; `build` checks that the name and body were set.
#[derive(Debug)]
pub struct ShortcutBuilder {
    pub name: Option<String>,
    pub interpreters: Option<Vec<Interpreter>>,
    pub body: Option<ShortcutBody>,
}

impl ShortcutBuilder {
    pub fn new() -> (r: Self)
        ensures
            r.name is None,
            r.interpreters is None,
            r.body is None,
    {
        ShortcutBuilder { name: None, interpreters: None, body: None }
    }

    pub fn name(self, name: &str) -> (r: Self)
        ensures
            r.name matches Some(n) && n@ == name@,
            r.interpreters == self.interpreters,
            r.body == self.body,
    {
        let mut b = self;
        b.name = Some(String::from_str(name));
        b
    }

    pub fn interpreters(self, interpreters: Option<Vec<Interpreter>>) -> (r: Self)
        ensures
            r.name == self.name,
            r.interpreters == interpreters,
            r.body == self.body,
    {
        let mut b = self;
        b.interpreters = interpreters;
        b
    }

    pub fn command(self, command: Vec<String>) -> (r: Self)
        ensures
            r.name == self.name,
            r.interpreters == self.interpreters,
            r.body == Some(ShortcutBody::Command(command)),
    {
        let mut b = self;
        b.body = Some(ShortcutBody::Command(command));
        b
    }

    pub fn command_script(
        self,
        command: Vec<String>,
        script_path: FsPath,
        script_body: &str,
        script_offset: Option<u8>,
    ) -> (r: Result<Self, ScuError>)
        ensures
            r matches Ok(b) && b.name == self.name && b.interpreters == self.interpreters && (
            b.body matches Some(
                ShortcutBody::CommandWithScript { cmd, script, script_offset: o, body },
            ) && cmd == command && script == script_path && o == script_offset && body@
                == script_body@),
    {
        let mut b = self;
        b.body = Some(
            ShortcutBody::CommandWithScript {
                cmd: command,
                script: script_path,
                script_offset,
                body: String::from_str(script_body),
            },
        );
        Ok(b)
    }

    /// The shortcut, with no autorun launcher; fails when the name or body is unset.
    pub fn build(self) -> (r: Result<Shortcut, ScuError>)
        ensures
            self.name is None || self.body is None ==> r == Err::<Shortcut, ScuError>(
                ScuError::IncompleteShortcut,
            ),
            self.name is Some && self.body is Some ==> r is Ok,
            r matches Ok(s) ==> Some(s.name) == self.name && s.interpreters == self.interpreters
                && Some(s.body) == self.body && s.startup is None,
    {
        match (self.name, self.body) {
            (Some(name), Some(body)) => Ok(
                Shortcut { name, interpreters: self.interpreters, body, startup: None },
            ),
            _ => Err(ScuError::IncompleteShortcut),
        }
    }
}

/// A builder that holds the name and the interpreter override given by name,
/// failing on the first unknown interpreter name.
pub fn base_shortcut(name: &str, interpreters: Option<&Vec<String>>) -> (r: Result<
    ShortcutBuilder,
    ScuError,
>)
    ensures
        r is Ok <==> collect_ok(names_view(interpreters)),
        r matches Ok(b) ==> (b.name matches Some(n) && n@ == name@) && interpreters_view(
            b.interpreters,
        ) == collected(names_view(interpreters)) && b.body is None,
        r matches Err(e) ==> collect_error(names_view(interpreters), e),
{
    let collected = Interpreter::try_collect(interpreters)?;
    Ok(Shortcut::builder().name(name).interpreters(collected))
}

} // verus!
