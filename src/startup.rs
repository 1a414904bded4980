use vstd::prelude::*;

use crate::errors::ScuError;
use crate::interpreter::Interpreter;
use crate::paths::{ComponentView, FileWrite, FsPath};
use crate::platform::Platform;
use crate::script::launcher_text;
use crate::shortcut::Shortcut;

verus! {

/// The per-user autorun folder under a Windows profile directory.
pub open spec fn startup_dir(home: Seq<ComponentView>) -> Seq<ComponentView> {
    home + seq![
        ComponentView::Normal("AppData"@),
        ComponentView::Normal("Roaming"@),
        ComponentView::Normal("Microsoft"@),
        ComponentView::Normal("Windows"@),
        ComponentView::Normal("Start Menu"@),
        ComponentView::Normal("Programs"@),
        ComponentView::Normal("Startup"@),
    ]
}

/// The autorun launcher of a shortcut: a batch file named after it in the
/// autorun folder, running its effective command.
pub open spec fn startup_write(home: Seq<ComponentView>, shortcut: Shortcut) -> (
    Seq<ComponentView>,
    Seq<char>,
) {
    (
        startup_dir(home).push(
            ComponentView::Normal(shortcut.name@ + Interpreter::Cmd.spec_extension()),
        ),
        launcher_text(Interpreter::Cmd, shortcut.body.spec_command(Platform::Windows)),
    )
}

/// The path of an autorun launcher registered for a shortcut.
#[derive(Debug)]
pub struct StartupReference(pub FsPath);

impl StartupReference {
    /// The reference to the autorun launcher of `shortcut` under the profile
    /// directory `home`, and the write that creates the launcher.
    pub fn create(shortcut: &Shortcut, home: &FsPath) -> (r: Result<(StartupReference, FileWrite), ScuError>)
        ensures
            shortcut.body.spec_command(Platform::Windows).len() == 0 <==> r is Err,
            r matches Err(e) ==> e == ScuError::EmptyCommand,
            r matches Ok((s, w)) ==> w@ == startup_write(home@, *shortcut) && s.0@ == w.path@,
    {
        let script = match shortcut.script(&Interpreter::Cmd, Platform::Windows) {
            Ok(s) => s,
            Err(e) => return Err(e),
        };
        let mut file = shortcut.name.clone();
        file.append(Interpreter::Cmd.extension());
        let dir = home.join("AppData").join("Roaming").join("Microsoft").join("Windows").join(
            "Start Menu",
        ).join("Programs").join("Startup");
        assert(dir@ =~= startup_dir(home@));
        let path = dir.join(file.as_str());
        let reference = StartupReference(path.duplicate());
        Ok((reference, FileWrite { path, contents: script.render() }))
    }
}

} // verus!
