use vstd::prelude::*;

verus! {

/// What one path component is, as contracts speak of it.
pub enum ComponentView {
    Prefix(Seq<char>),
    RootDir,
    CurDir,
    ParentDir,
    Normal(Seq<char>),
}

/// One component of a filesystem path: a drive or UNC prefix, the root,
/// `.`, `..`, or a plain name.
#[derive(Debug)]
pub enum PathComponent {
    Prefix(String),
    RootDir,
    CurDir,
    ParentDir,
    Normal(String),
}

impl View for PathComponent {
    type V = ComponentView;

    open spec fn view(&self) -> ComponentView {
        match self {
            PathComponent::Prefix(s) => ComponentView::Prefix(s@),
            PathComponent::RootDir => ComponentView::RootDir,
            PathComponent::CurDir => ComponentView::CurDir,
            PathComponent::ParentDir => ComponentView::ParentDir,
            PathComponent::Normal(s) => ComponentView::Normal(s@),
        }
    }
}

/// The marker that opens a verbatim Windows prefix.
pub open spec fn verbatim_marker() -> Seq<char> {
    seq!['\\', '\\', '?', '\\']
}

/// `s` with every occurrence of the verbatim marker removed, scanning from the left.
pub open spec fn without_marker(s: Seq<char>) -> Seq<char>
    decreases s.len(),
{
    if s.len() == 0 {
        s
    } else if s.len() >= 4 && s.subrange(0, 4) == verbatim_marker() {
        without_marker(s.subrange(4, s.len() as int))
    } else {
        seq![s[0]] + without_marker(s.subrange(1, s.len() as int))
    }
}

impl ComponentView {
    /// The text that stands for the component in a stringified path.
    pub open spec fn text(self) -> Seq<char> {
        match self {
            ComponentView::Prefix(p) => without_marker(p),
            ComponentView::RootDir => Seq::empty(),
            ComponentView::CurDir => "."@,
            ComponentView::ParentDir => ".."@,
            ComponentView::Normal(s) => s,
        }
    }

    /// Whether a separator follows the component when another one comes after it.
    pub open spec fn separated(self) -> bool {
        !(self is Prefix)
    }
}

/// The components written out in order, each but the last followed by `sep`
/// unless it is a prefix.
pub open spec fn stringified(parts: Seq<ComponentView>, sep: Seq<char>) -> Seq<char>
    decreases parts.len(),
{
    if parts.len() == 0 {
        Seq::empty()
    } else if parts.len() == 1 {
        parts[0].text()
    } else {
        let init = parts.drop_last();
        stringified(init, sep) + (if init.last().separated() {
            sep
        } else {
            Seq::empty()
        }) + parts.last().text()
    }
}

/// Removes every verbatim marker from a prefix's text.
fn strip_verbatim(s: &str) -> (r: String)
    ensures
        r@ == without_marker(s@),
{
    let n = s.unicode_len();
    let mut r = String::new();
    let mut i: usize = 0;
    assert(s@.subrange(0, n as int) =~= s@);
    assert(r@ + without_marker(s@) =~= without_marker(s@));
    while i < n
        invariant
            n == s@.len(),
            i <= n,
            r@ + without_marker(s@.subrange(i as int, n as int)) == without_marker(s@),
        decreases n - i,
    {
        let ghost rest = s@.subrange(i as int, n as int);
        if n - i >= 4 && s.get_char(i) == '\\' && s.get_char(i + 1) == '\\' && s.get_char(i + 2)
            == '?' && s.get_char(i + 3) == '\\' {
            proof {
                assert(rest.subrange(0, 4) =~= verbatim_marker());
                assert(rest.subrange(4, rest.len() as int) =~= s@.subrange(i + 4, n as int));
            }
            i = i + 4;
        } else {
            proof {
                assert(rest.len() < 4 || rest.subrange(0, 4) != verbatim_marker()) by {
                    if rest.len() >= 4 && rest.subrange(0, 4) == verbatim_marker() {
                        assert(rest.subrange(0, 4)[0] == s@[i as int]);
                        assert(rest.subrange(0, 4)[1] == s@[i + 1]);
                        assert(rest.subrange(0, 4)[2] == s@[i + 2]);
                        assert(rest.subrange(0, 4)[3] == s@[i + 3]);
                    }
                }
                assert(rest.subrange(1, rest.len() as int) =~= s@.subrange(i + 1, n as int));
                assert(seq![rest[0]] =~= s@.subrange(i as int, i + 1));
            }
            let c = s.substring_char(i, i + 1);
            r.append(c);
            proof {
                assert(r@ + without_marker(s@.subrange(i + 1, n as int)) =~= without_marker(s@));
            }
            i = i + 1;
        }
    }
    proof {
        assert(s@.subrange(n as int, n as int) =~= Seq::<char>::empty());
        assert(r@ =~= r@ + without_marker(s@.subrange(n as int, n as int)));
    }
    r
}

impl PathComponent {
    /// The text that stands for the component in a stringified path.
    pub fn text(&self) -> (r: String)
        ensures
            r@ == self@.text(),
    {
        match self {
            PathComponent::Prefix(p) => strip_verbatim(p.as_str()),
            PathComponent::RootDir => String::new(),
            PathComponent::CurDir => String::from_str("."),
            PathComponent::ParentDir => String::from_str(".."),
            PathComponent::Normal(s) => s.clone(),
        }
    }

    pub fn separated(&self) -> (r: bool)
        ensures
            r == self@.separated(),
    {
        match self {
            PathComponent::Prefix(_) => false,
            _ => true,
        }
    }

    /// A copy of the component.
    pub fn duplicate(&self) -> (r: PathComponent)
        ensures
            r@ == self@,
    {
        match self {
            PathComponent::Prefix(p) => PathComponent::Prefix(p.clone()),
            PathComponent::RootDir => PathComponent::RootDir,
            PathComponent::CurDir => PathComponent::CurDir,
            PathComponent::ParentDir => PathComponent::ParentDir,
            PathComponent::Normal(s) => PathComponent::Normal(s.clone()),
        }
    }
}

/// A filesystem path held as its components.
#[derive(Debug)]
pub struct FsPath {
    pub parts: Vec<PathComponent>,
}

impl View for FsPath {
    type V = Seq<ComponentView>;

    open spec fn view(&self) -> Seq<ComponentView> {
        self.parts@.map_values(|c: PathComponent| c@)
    }
}

impl FsPath {
    /// The last component when it is a plain name.
    pub open spec fn spec_file_name(self) -> Option<Seq<char>> {
        if self@.len() > 0 && self@.last() is Normal {
            Some(self@.last()->Normal_0)
        } else {
            None
        }
    }

    pub fn new(parts: Vec<PathComponent>) -> (r: FsPath)
        ensures
            r.parts == parts,
    {
        FsPath { parts }
    }

    /// A copy of the path.
    pub fn duplicate(&self) -> (r: FsPath)
        ensures
            r@ == self@,
    {
        let mut parts: Vec<PathComponent> = Vec::new();
        let mut i: usize = 0;
        while i < self.parts.len()
            invariant
                i <= self.parts.len(),
                parts@.len() == i,
                forall|j: int| 0 <= j < i ==> (#[trigger] parts@[j])@ == self.parts@[j]@,
            decreases self.parts.len() - i,
        {
            parts.push(self.parts[i].duplicate());
            i = i + 1;
        }
        let r = FsPath { parts };
        assert(r@ =~= self@);
        r
    }

    /// The path extended by one plain name.
    pub fn join(&self, name: &str) -> (r: FsPath)
        ensures
            r@ == self@.push(ComponentView::Normal(name@)),
    {
        let mut r = self.duplicate();
        r.parts.push(PathComponent::Normal(String::from_str(name)));
        assert(r@ =~= self@.push(ComponentView::Normal(name@)));
        r
    }

    /// The last component when it is a plain name, as std's `Path::file_name` gives it.
    pub fn file_name(&self) -> (r: Option<String>)
        ensures
            r matches Some(s) ==> self.spec_file_name() == Some(s@),
            r is None ==> self.spec_file_name() is None,
    {
        let n = self.parts.len();
        if n == 0 {
            return None;
        }
        match &self.parts[n - 1] {
            PathComponent::Normal(s) => Some(s.clone()),
            _ => None,
        }
    }
}

/// Writes the path out with `separator` between its components; a drive
/// prefix is followed directly by what comes after it.
pub fn stringify(path: &FsPath, separator: &str) -> (r: String)
    ensures
        r@ == stringified(path@, separator@),
{
    let ghost parts = path@;
    let mut r = String::new();
    let mut i: usize = 0;
    while i < path.parts.len()
        invariant
            i <= path.parts.len(),
            parts == path@,
            r@ == stringified(parts.take(i as int), separator@),
        decreases path.parts.len() - i,
    {
        proof {
            assert(parts.take(i as int + 1).drop_last() =~= parts.take(i as int));
        }
        if i > 0 && path.parts[i - 1].separated() {
            r.append(separator);
        }
        let t = path.parts[i].text();
        r.append(t.as_str());
        i = i + 1;
    }
    assert(parts.take(path.parts.len() as int) =~= parts);
    r
}

/// Relies on `std::path::MAIN_SEPARATOR`: `/` on Unix, `\` on Windows.
#[verifier::external_body]
fn main_separator() -> (r: String)
    ensures
        r@ == seq!['/'] || r@ == seq!['\\'],
{
    std::path::MAIN_SEPARATOR.to_string()
}

/// Writes the path out with the separator of the platform the program runs on.
pub fn stringify_default(path: &FsPath) -> (r: String)
    ensures
        r@ == stringified(path@, seq!['/']) || r@ == stringified(path@, seq!['\\']),
{
    let sep = main_separator();
    stringify(path, sep.as_str())
}

} // verus!

verus! {

/// A file to be written: where, and what it holds.
#[derive(Debug)]
pub struct FileWrite {
    pub path: FsPath,
    pub contents: String,
}

impl View for FileWrite {
    type V = (Seq<ComponentView>, Seq<char>);

    open spec fn view(&self) -> (Seq<ComponentView>, Seq<char>) {
        (self.path@, self.contents@)
    }
}

} // verus!
