use vstd::prelude::*;

use crate::errors::ScuError;
use crate::interpreter::{
    collect_error,
    collect_ok,
    collected,
    interpreters_view,
    names_view,
    spec_all,
    Interpreter,
};
use crate::paths::{ComponentView, FileWrite, FsPath};
use crate::platform::Platform;
use crate::script::{launcher_text, Script};
use crate::shortcut::Shortcut;
use crate::startup::{startup_write, StartupReference};
use crate::text::copy_all;

verus! {

/// The data directory, next to the executable.
pub const BASE_DIR: &'static str = "scu_data";

/// One metadata file per shortcut.
pub const META_DIR: &'static str = "meta";

/// The generated launchers.
pub const BIN_DIR: &'static str = "bin";

/// The materialized script resources.
pub const RES_DIR: &'static str = "res";

/// The extension of a metadata file.
pub const SUFFIX: &'static str = ".toml";

/// The interpreters to render for: the explicit override when there is one,
/// else the record's own list, else the whole registry. The first present
/// list wins whole.
pub open spec fn resolved(
    over: Option<Seq<Interpreter>>,
    record: Option<Seq<Interpreter>>,
) -> Seq<Interpreter> {
    match over {
        Some(o) => o,
        None => match record {
            Some(r) => r,
            None => spec_all(),
        },
    }
}

/// The planned writes as contracts see them.
pub open spec fn writes_view(ws: Seq<FileWrite>) -> Seq<(Seq<ComponentView>, Seq<char>)> {
    ws.map_values(|w: FileWrite| w@)
}

/// A profile directory as contracts see it.
pub open spec fn home_view(home: Option<&FsPath>) -> Option<Seq<ComponentView>> {
    match home {
        Some(h) => Some(h@),
        None => None,
    }
}

/// A shortcut together with the metadata file it is stored in.
#[derive(Debug)]
pub struct StoredShortcut {
    pub shortcut: Shortcut,
    pub path: FsPath,
}

/// Owns the data directory layout and decides what each operation does to it.
#[derive(Debug)]
pub struct Controller {
    /// The directory that holds the data directory.
    pub path: FsPath,
    /// The platform the launchers are generated for.
    pub platform: Platform,
}

impl Controller {
    /// The subdirectory `sub` of the data directory.
    pub open spec fn spec_dir(&self, sub: Seq<char>) -> Seq<ComponentView> {
        self.path@ + seq![ComponentView::Normal(BASE_DIR@), ComponentView::Normal(sub)]
    }

    /// The metadata file of the shortcut called `name`.
    pub open spec fn spec_shortcut_path(&self, name: Seq<char>) -> Seq<ComponentView> {
        self.spec_dir(META_DIR@).push(ComponentView::Normal(name + SUFFIX@))
    }

    /// The file name of the launcher of `name` for `it`.
    pub open spec fn launcher_name(&self, name: Seq<char>, it: Interpreter) -> Seq<char> {
        if it.spec_prefer_no_extension(self.platform) {
            name
        } else {
            name + it.spec_extension()
        }
    }

    /// The launcher of `name` for `it`, running `cmd`.
    pub open spec fn launcher_write(&self, name: Seq<char>, it: Interpreter, cmd: Seq<Seq<char>>) -> (
        Seq<ComponentView>,
        Seq<char>,
    ) {
        (
            self.spec_dir(BIN_DIR@).push(ComponentView::Normal(self.launcher_name(name, it))),
            launcher_text(it, cmd),
        )
    }

    /// What `make` writes for `s` and the interpreters `set`: the script
    /// resource first, if any, then one launcher per interpreter, in order.
    pub open spec fn make_writes(&self, s: Shortcut, set: Seq<Interpreter>) -> Seq<
        (Seq<ComponentView>, Seq<char>),
    > {
        let resource = match s.body.spec_resource() {
            Some(w) => seq![w],
            None => Seq::empty(),
        };
        resource + set.map_values(
            |it: Interpreter| self.launcher_write(s.name@, it, s.body.spec_command(self.platform)),
        )
    }

    /// What `startup_set` does: fails on a platform without autorun; leaves a
    /// registered shortcut alone unless forced; else registers a launcher
    /// under `home`, which must be known.
    pub open spec fn startup_set_post(
        &self,
        before: Shortcut,
        after: Shortcut,
        force: bool,
        home: Option<Seq<ComponentView>>,
        r: Result<Option<FileWrite>, ScuError>,
    ) -> bool {
        if !self.platform.spec_supports_startup() {
            r == Err::<Option<FileWrite>, ScuError>(ScuError::UnsupportedPlatform) && after == before
        } else if before.startup is Some && !force {
            r == Ok::<Option<FileWrite>, ScuError>(None) && after == before
        } else if home is None {
            (r matches Err(e) && e is IoError) && after == before
        } else if before.body.spec_command(Platform::Windows).len() == 0 {
            r == Err::<Option<FileWrite>, ScuError>(ScuError::EmptyCommand) && after == before
        } else {
            &&& r matches Ok(Some(w)) && w@ == startup_write(home->Some_0, before) && (
            after.startup matches Some(s) && s.0@ == w.path@)
            &&& after.name == before.name
            &&& after.interpreters == before.interpreters
            &&& after.body == before.body
        }
    }

    /// What `startup_quit` does: fails on a platform without autorun; with a
    /// launcher registered, clears the reference and hands back its path to
    /// delete; with none, changes nothing.
    pub open spec fn startup_quit_post(
        &self,
        before: Shortcut,
        after: Shortcut,
        r: Result<Option<FsPath>, ScuError>,
    ) -> bool {
        if !self.platform.spec_supports_startup() {
            r == Err::<Option<FsPath>, ScuError>(ScuError::UnsupportedPlatform) && after == before
        } else {
            match before.startup {
                Some(s) => {
                    &&& r matches Ok(Some(p)) && p@ == s.0@
                    &&& after.startup is None
                    &&& after.name == before.name
                    &&& after.interpreters == before.interpreters
                    &&& after.body == before.body
                },
                None => r == Ok::<Option<FsPath>, ScuError>(None) && after == before,
            }
        }
    }

    /// A controller whose data directory lies in `path`.
    pub fn new(path: FsPath, platform: Platform) -> (r: Controller)
        ensures
            r.path == path,
            r.platform == platform,
    {
        Controller { path, platform }
    }

    fn dir(&self, sub: &str) -> (r: FsPath)
        ensures
            r@ == self.spec_dir(sub@),
    {
        let r = self.path.join(BASE_DIR).join(sub);
        assert(r@ =~= self.spec_dir(sub@));
        r
    }

    pub fn meta_dir(&self) -> (r: FsPath)
        ensures
            r@ == self.spec_dir(META_DIR@),
    {
        self.dir(META_DIR)
    }

    pub fn bin_dir(&self) -> (r: FsPath)
        ensures
            r@ == self.spec_dir(BIN_DIR@),
    {
        self.dir(BIN_DIR)
    }

    pub fn res_dir(&self) -> (r: FsPath)
        ensures
            r@ == self.spec_dir(RES_DIR@),
    {
        self.dir(RES_DIR)
    }

    /// Where the resource copied from `file` is kept: the resource directory
    /// joined with the file name of `file`.
    pub fn create_resource(&self, file: &FsPath) -> (r: Result<FsPath, ScuError>)
        ensures
            file.spec_file_name() matches Some(n) ==> r matches Ok(p) && p@ == self.spec_dir(
                RES_DIR@,
            ).push(ComponentView::Normal(n)),
            file.spec_file_name() is None ==> r == Err::<FsPath, ScuError>(ScuError::MissingFileName),
    {
        match file.file_name() {
            Some(n) => Ok(self.res_dir().join(n.as_str())),
            None => Err(ScuError::MissingFileName),
        }
    }

    /// The metadata file of the shortcut called `name`.
    pub fn shortcut_path(&self, name: &str) -> (r: FsPath)
        ensures
            r@ == self.spec_shortcut_path(name@),
    {
        let mut file = String::from_str(name);
        file.append(SUFFIX);
        self.meta_dir().join(file.as_str())
    }

    /// Binds `file` to the metadata file of the name `name`.
    pub fn new_shortcut_file(&self, name: &str, file: Shortcut) -> (r: StoredShortcut)
        ensures
            r.shortcut == file,
            r.path@ == self.spec_shortcut_path(name@),
    {
        StoredShortcut { shortcut: file, path: self.shortcut_path(name) }
    }

    /// The writes that generate the launchers of `shortcut`: its script
    /// resource, then one launcher per resolved interpreter in the binaries
    /// directory. Fails on an unknown interpreter name, or on an empty command
    /// when there is a launcher to render.
    pub fn make(&self, shortcut: &Shortcut, interpreters: Option<&Vec<String>>) -> (r: Result<
        Vec<FileWrite>,
        ScuError,
    >)
        ensures
            !collect_ok(names_view(interpreters)) ==> (r matches Err(e) && collect_error(
                names_view(interpreters),
                e,
            )),
            collect_ok(names_view(interpreters)) ==> ({
                let set = resolved(
                    collected(names_view(interpreters)),
                    interpreters_view(shortcut.interpreters),
                );
                let empty = set.len() > 0 && shortcut.body.spec_command(self.platform).len() == 0;
                &&& empty ==> r == Err::<Vec<FileWrite>, ScuError>(ScuError::EmptyCommand)
                &&& !empty ==> (r matches Ok(ws) && writes_view(ws@) == self.make_writes(
                    *shortcut,
                    set,
                ))
            }),
    {
        let over = match Interpreter::try_collect(interpreters) {
            Ok(o) => o,
            Err(e) => return Err(e),
        };
        let set: Vec<Interpreter> = match over {
            Some(v) => v,
            None => match &shortcut.interpreters {
                Some(v) => v.clone(),
                None => registry(),
            },
        };
        assert(set@ =~= resolved(
            collected(names_view(interpreters)),
            interpreters_view(shortcut.interpreters),
        ));
        let ghost plan = self.make_writes(*shortcut, set@);
        let mut writes: Vec<FileWrite> = Vec::new();
        match shortcut.body.resource_write() {
            Some(w) => writes.push(w),
            None => {},
        }
        let ghost first = writes.len();
        let cmd = shortcut.body.command(self.platform);
        let bin = self.bin_dir();
        let mut i: usize = 0;
        while i < set.len()
            invariant
                i <= set.len(),
                collect_ok(names_view(interpreters)),
                set@ == resolved(
                    collected(names_view(interpreters)),
                    interpreters_view(shortcut.interpreters),
                ),
                i > 0 ==> cmd.deep_view().len() > 0,
                first as int + set.len() == plan.len(),
                writes.len() == first + i,
                cmd.deep_view() == shortcut.body.spec_command(self.platform),
                bin@ == self.spec_dir(BIN_DIR@),
                plan == self.make_writes(*shortcut, set@),
                forall|j: int| 0 <= j < first + i ==> (#[trigger] writes@[j])@ == plan[j],
            decreases set.len() - i,
        {
            let script = match Script::new(&set[i], copy_all(&cmd)) {
                Ok(s) => s,
                Err(e) => return Err(e),
            };
            let mut file = shortcut.name.clone();
            if !set[i].prefer_no_extension(self.platform) {
                file.append(set[i].extension());
            }
            writes.push(FileWrite { path: bin.join(file.as_str()), contents: script.render() });
            i = i + 1;
        }
        assert(writes_view(writes@) =~= plan);
        Ok(writes)
    }

    /// Registers an autorun launcher for `shortcut` unless one is registered
    /// and `force` is unset. On success the reference is updated in place and
    /// the launcher to write is handed back; `None` means nothing changed.
    pub fn startup_set(&self, shortcut: &mut Shortcut, force: bool, home: Option<&FsPath>) -> (r:
        Result<Option<FileWrite>, ScuError>)
        ensures
            self.startup_set_post(*old(shortcut), *final(shortcut), force, home_view(home), r),
    {
        if !self.platform.supports_startup() {
            return Err(ScuError::UnsupportedPlatform);
        }
        if shortcut.startup.is_some() && !force {
            return Ok(None);
        }
        let home = match home {
            Some(h) => h,
            None => return Err(ScuError::IoError(String::from_str("home directory not found"))),
        };
        match StartupReference::create(shortcut, home) {
            Ok((reference, write)) => {
                shortcut.update_startup_reference(Some(reference));
                Ok(Some(write))
            },
            Err(e) => Err(e),
        }
    }

    /// Clears the autorun reference of `shortcut`, handing back the launcher
    /// to delete; `None` means nothing was registered and nothing changed.
    pub fn startup_quit(&self, shortcut: &mut Shortcut) -> (r: Result<Option<FsPath>, ScuError>)
        ensures
            self.startup_quit_post(*old(shortcut), *final(shortcut), r),
    {
        if !self.platform.supports_startup() {
            return Err(ScuError::UnsupportedPlatform);
        }
        match shortcut.startup.take() {
            Some(reference) => Ok(Some(reference.0)),
            None => Ok(None),
        }
    }

    /// Whether a metadata entry is a target of a deletion: by its file name
    /// when `by_filename` is set, else by the name stored in it (an entry that
    /// did not load has none). Names match by exact equality only.
    pub fn delete_matches(
        &self,
        names: &Vec<String>,
        file_name: &str,
        stored_name: Option<&String>,
        by_filename: bool,
    ) -> (r: bool)
        ensures
            by_filename ==> r == names.deep_view().contains(file_name@),
            !by_filename ==> r == (stored_name matches Some(n) && names.deep_view().contains(n@)),
    {
        if by_filename {
            contains_name(names, file_name)
        } else {
            match stored_name {
                Some(n) => contains_name(names, n.as_str()),
                None => false,
            }
        }
    }

    /// How many items of a batch made a change: the outcomes of the items are
    /// given in order, and a failed item counts as no change.
    pub fn operate_many(&self, outcomes: &Vec<Result<bool, ScuError>>) -> (r: usize)
        ensures
            r == successes(outcomes@),
    {
        let mut count: usize = 0;
        let mut i: usize = 0;
        while i < outcomes.len()
            invariant
                i <= outcomes.len(),
                count == successes(outcomes@.take(i as int)),
                count <= i,
            decreases outcomes.len() - i,
        {
            proof {
                assert(outcomes@.take(i as int + 1).drop_last() =~= outcomes@.take(i as int));
            }
            match &outcomes[i] {
                Ok(true) => count = count + 1,
                _ => {},
            }
            i = i + 1;
        }
        assert(outcomes@.take(outcomes.len() as int) =~= outcomes@);
        count
    }
}

/// Whether `name` is one of `names`.
fn contains_name(names: &Vec<String>, name: &str) -> (r: bool)
    ensures
        r == names.deep_view().contains(name@),
{
    let target = String::from_str(name);
    let mut i: usize = 0;
    while i < names.len()
        invariant
            i <= names.len(),
            target@ == name@,
            forall|j: int| 0 <= j < i ==> names.deep_view()[j] != name@,
        decreases names.len() - i,
    {
        if names[i].eq(&target) {
            assert(names.deep_view()[i as int] == name@);
            return true;
        }
        i = i + 1;
    }
    false
}

/// Every known interpreter, in registry order.
fn registry() -> (r: Vec<Interpreter>)
    ensures
        r@ == spec_all(),
{
    let all = Interpreter::all();
    let mut r: Vec<Interpreter> = Vec::new();
    let mut i: usize = 0;
    while i < 5
        invariant
            i <= 5,
            all@ == spec_all(),
            r@ == all@.take(i as int),
        decreases 5 - i,
    {
        r.push(all[i]);
        i = i + 1;
        assert(r@ =~= all@.take(i as int));
    }
    assert(all@.take(5) =~= all@);
    r
}

/// The number of outcomes that report a change.
pub open spec fn successes(outcomes: Seq<Result<bool, ScuError>>) -> nat
    decreases outcomes.len(),
{
    if outcomes.len() == 0 {
        0
    } else {
        successes(outcomes.drop_last()) + if outcomes.last() == Ok::<bool, ScuError>(true) {
            1nat
        } else {
            0nat
        }
    }
}

} // verus!

verus! {

/// The number of resource writes that `make` puts before the launchers.
pub open spec fn resource_count(s: Shortcut) -> nat {
    if s.body.spec_resource() is Some {
        1
    } else {
        0
    }
}

/// Interpreter precedence of `make`: an explicit override list is rendered
/// whole, else the record's own list, else every registry entry; and one
/// launcher is written per interpreter of the list that wins.
pub proof fn lemma_make_precedence(c: Controller, s: Shortcut, over: Option<Seq<Interpreter>>)
    ensures
        over matches Some(o) ==> c.make_writes(s, resolved(over, interpreters_view(s.interpreters)))
            == c.make_writes(s, o),
        over is None ==> (s.interpreters matches Some(r) ==> c.make_writes(
            s,
            resolved(over, interpreters_view(s.interpreters)),
        ) == c.make_writes(s, r@)),
        over is None && s.interpreters is None ==> c.make_writes(
            s,
            resolved(over, interpreters_view(s.interpreters)),
        ) == c.make_writes(s, spec_all()),
        c.make_writes(s, resolved(over, interpreters_view(s.interpreters))).len() == resource_count(
            s,
        ) + resolved(over, interpreters_view(s.interpreters)).len(),
{
}

/// Two different interpreters never share a launcher file name, so the
/// launchers of one shortcut never overwrite each other.
pub proof fn lemma_launcher_names_distinct(c: Controller, name: Seq<char>, a: Interpreter, b: Interpreter)
    requires
        a != b,
    ensures
        c.launcher_name(name, a) != c.launcher_name(name, b),
{
    reveal_strlit(".sh");
    reveal_strlit(".bat");
    reveal_strlit(".py");
    reveal_strlit(".pyw");
    reveal_strlit(".ps1");
    let na = c.launcher_name(name, a);
    let nb = c.launcher_name(name, b);
    if na.len() == nb.len() {
        let i = name.len() as int + 1;
        assert(na[i] != nb[i] || na[i + 1] != nb[i + 1]);
    }
}

/// Registering without `force` changes a shortcut only once: after a
/// registration, a second call reports no change and leaves it as it is.
pub proof fn lemma_startup_set_idempotent(
    c: Controller,
    s0: Shortcut,
    s1: Shortcut,
    s2: Shortcut,
    home: Option<Seq<ComponentView>>,
    r1: Result<Option<FileWrite>, ScuError>,
    r2: Result<Option<FileWrite>, ScuError>,
)
    requires
        c.startup_set_post(s0, s1, false, home, r1),
        r1 matches Ok(Some(_)),
        c.startup_set_post(s1, s2, false, home, r2),
    ensures
        r2 == Ok::<Option<FileWrite>, ScuError>(None),
        s2 == s1,
{
}

/// Unregistering after a registration hands back the launcher that was
/// registered, for deletion, and clears the reference; unregistering a
/// shortcut with nothing registered reports no change and changes nothing.
pub proof fn lemma_startup_quit_after_set(
    c: Controller,
    s0: Shortcut,
    s1: Shortcut,
    s2: Shortcut,
    force: bool,
    home: Option<Seq<ComponentView>>,
    w: FileWrite,
    r2: Result<Option<FsPath>, ScuError>,
)
    requires
        c.startup_set_post(s0, s1, force, home, Ok(Some(w))),
        c.startup_quit_post(s1, s2, r2),
    ensures
        r2 matches Ok(Some(p)) && p@ == w.path@,
        s2.startup is None,
        s2.name == s0.name,
        s2.body == s0.body,
{
}

/// Unregistering a shortcut with nothing registered reports no change and
/// leaves it as it is.
pub proof fn lemma_startup_quit_unset(
    c: Controller,
    s0: Shortcut,
    s1: Shortcut,
    r: Result<Option<FsPath>, ScuError>,
)
    requires
        c.platform.spec_supports_startup(),
        s0.startup is None,
        c.startup_quit_post(s0, s1, r),
    ensures
        r == Ok::<Option<FsPath>, ScuError>(None),
        s1 == s0,
{
}

} // verus!
