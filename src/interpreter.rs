use vstd::prelude::*;

use crate::errors::ScuError;
use crate::platform::Platform;

verus! {

/// The code point of `c` after ASCII lower-casing.
pub open spec fn lower_code(c: char) -> u32 {
    if 65 <= (c as u32) && (c as u32) <= 90 {
        (c as u32 + 32) as u32
    } else {
        c as u32
    }
}

/// Whether `s`, ASCII lower-cased, is exactly `lower`.
pub open spec fn same_ignoring_case(s: Seq<char>, lower: Seq<char>) -> bool {
    &&& s.len() == lower.len()
    &&& forall|i: int| 0 <= i < s.len() ==> lower_code(#[trigger] s[i]) == lower[i] as u32
}

/// Compares `s` with `lower` after ASCII lower-casing `s`.
fn eq_ignore_case(s: &str, lower: &str) -> (r: bool)
    ensures
        r == same_ignoring_case(s@, lower@),
{
    let n = s.unicode_len();
    if n != lower.unicode_len() {
        return false;
    }
    let mut i: usize = 0;
    while i < n
        invariant
            n == s@.len(),
            n == lower@.len(),
            i <= n,
            forall|j: int| 0 <= j < i ==> lower_code(#[trigger] s@[j]) == lower@[j] as u32,
        decreases n - i,
    {
        let c = s.get_char(i) as u32;
        let code = if 65 <= c && c <= 90 {
            c + 32
        } else {
            c
        };
        if code != lower.get_char(i) as u32 {
            return false;
        }
        i = i + 1;
    }
    true
}

/// A target execution environment that launchers can be generated for.
#[derive(Clone, Copy, Debug, PartialEq, Eq, Structural, Hash)]
pub enum Interpreter {
    Bash,
    Cmd,
    Python,
    Pythonw,
    Powershell,
}

/// Every known interpreter, in registry order.
pub open spec fn spec_all() -> Seq<Interpreter> {
    seq![
        Interpreter::Bash,
        Interpreter::Cmd,
        Interpreter::Python,
        Interpreter::Pythonw,
        Interpreter::Powershell,
    ]
}

/// The interpreter that a name stands for, case-insensitively.
pub open spec fn spec_from_name(s: Seq<char>) -> Option<Interpreter> {
    if same_ignoring_case(s, "bash"@) {
        Some(Interpreter::Bash)
    } else if same_ignoring_case(s, "cmd"@) || same_ignoring_case(s, "batch"@) {
        Some(Interpreter::Cmd)
    } else if same_ignoring_case(s, "python"@) {
        Some(Interpreter::Python)
    } else if same_ignoring_case(s, "pythonw"@) {
        Some(Interpreter::Pythonw)
    } else if same_ignoring_case(s, "powershell"@) {
        Some(Interpreter::Powershell)
    } else {
        None
    }
}

/// The interpreter whose launchers carry a file extension, case-insensitively.
pub open spec fn spec_from_extension(s: Seq<char>) -> Option<Interpreter> {
    if same_ignoring_case(s, ".sh"@) {
        Some(Interpreter::Bash)
    } else if same_ignoring_case(s, ".bat"@) {
        Some(Interpreter::Cmd)
    } else if same_ignoring_case(s, ".py"@) {
        Some(Interpreter::Python)
    } else if same_ignoring_case(s, ".pyw"@) {
        Some(Interpreter::Pythonw)
    } else if same_ignoring_case(s, ".ps1"@) {
        Some(Interpreter::Powershell)
    } else {
        None
    }
}

/// Whether every name is in the registry.
pub open spec fn all_known(names: Seq<Seq<char>>) -> bool {
    forall|i: int| 0 <= i < names.len() ==> (#[trigger] spec_from_name(names[i])) is Some
}

/// The interpreters that the names stand for, in order.
pub open spec fn interpreters_of(names: Seq<Seq<char>>) -> Seq<Interpreter> {
    names.map_values(|n: Seq<char>| spec_from_name(n)->Some_0)
}

/// `k` is the first position of a name that is not in the registry.
pub open spec fn first_unknown(names: Seq<Seq<char>>, k: int) -> bool {
    &&& 0 <= k < names.len()
    &&& all_known(names.take(k))
    &&& spec_from_name(names[k]) is None
}

/// `e` reports `name` as an unknown interpreter.
pub open spec fn reports_unknown(e: ScuError, name: Seq<char>) -> bool {
    e matches ScuError::UnknownInterpreter(m) && m@ == name
}

/// The names as contracts see them.
pub open spec fn names_view(names: Option<&Vec<String>>) -> Option<Seq<Seq<char>>> {
    match names {
        Some(ns) => Some(ns.deep_view()),
        None => None,
    }
}

/// An optional list of interpreters as contracts see it.
pub open spec fn interpreters_view(v: Option<Vec<Interpreter>>) -> Option<Seq<Interpreter>> {
    match v {
        Some(is) => Some(is@),
        None => None,
    }
}

/// Whether collecting the names succeeds: there are none, or all are known.
pub open spec fn collect_ok(names: Option<Seq<Seq<char>>>) -> bool {
    names matches Some(ns) ==> all_known(ns)
}

/// What collecting the names gives when it succeeds.
pub open spec fn collected(names: Option<Seq<Seq<char>>>) -> Option<Seq<Interpreter>> {
    match names {
        Some(ns) => Some(interpreters_of(ns)),
        None => None,
    }
}

/// `e` is the error of collecting the names: the first unknown one.
pub open spec fn collect_error(names: Option<Seq<Seq<char>>>, e: ScuError) -> bool {
    names matches Some(ns) && exists|k: int| first_unknown(ns, k) && #[trigger] reports_unknown(e, ns[k])
}

impl Interpreter {
    pub open spec fn spec_name(self) -> Seq<char> {
        match self {
            Interpreter::Bash => "bash"@,
            Interpreter::Cmd => "cmd"@,
            Interpreter::Python => "python"@,
            Interpreter::Pythonw => "pythonw"@,
            Interpreter::Powershell => "powershell"@,
        }
    }

    pub open spec fn spec_extension(self) -> Seq<char> {
        match self {
            Interpreter::Bash => ".sh"@,
            Interpreter::Cmd => ".bat"@,
            Interpreter::Python => ".py"@,
            Interpreter::Pythonw => ".pyw"@,
            Interpreter::Powershell => ".ps1"@,
        }
    }

    /// Shell scripts on POSIX systems are self-executing through their shebang
    /// line and are written without an extension.
    pub open spec fn spec_prefer_no_extension(self, platform: Platform) -> bool {
        self is Bash && platform is Posix
    }

    pub fn all() -> (r: [Self; 5])
        ensures
            r@ == spec_all(),
    {
        let r = [Self::Bash, Self::Cmd, Self::Python, Self::Pythonw, Self::Powershell];
        assert(r@ =~= spec_all());
        r
    }

    pub fn from_name(name: &str) -> (r: Option<Self>)
        ensures
            r == spec_from_name(name@),
    {
        if eq_ignore_case(name, "bash") {
            Some(Self::Bash)
        } else if eq_ignore_case(name, "cmd") || eq_ignore_case(name, "batch") {
            Some(Self::Cmd)
        } else if eq_ignore_case(name, "python") {
            Some(Self::Python)
        } else if eq_ignore_case(name, "pythonw") {
            Some(Self::Pythonw)
        } else if eq_ignore_case(name, "powershell") {
            Some(Self::Powershell)
        } else {
            None
        }
    }

    pub fn from_extension(extension: &str) -> (r: Option<Self>)
        ensures
            r == spec_from_extension(extension@),
    {
        if eq_ignore_case(extension, ".sh") {
            Some(Self::Bash)
        } else if eq_ignore_case(extension, ".bat") {
            Some(Self::Cmd)
        } else if eq_ignore_case(extension, ".py") {
            Some(Self::Python)
        } else if eq_ignore_case(extension, ".pyw") {
            Some(Self::Pythonw)
        } else if eq_ignore_case(extension, ".ps1") {
            Some(Self::Powershell)
        } else {
            None
        }
    }

    pub fn name(&self) -> (r: &'static str)
        ensures
            r@ == self.spec_name(),
    {
        match self {
            Self::Bash => "bash",
            Self::Cmd => "cmd",
            Self::Python => "python",
            Self::Pythonw => "pythonw",
            Self::Powershell => "powershell",
        }
    }

    pub fn extension(&self) -> (r: &'static str)
        ensures
            r@ == self.spec_extension(),
    {
        match self {
            Self::Bash => ".sh",
            Self::Cmd => ".bat",
            Self::Python => ".py",
            Self::Pythonw => ".pyw",
            Self::Powershell => ".ps1",
        }
    }

    pub fn prefer_no_extension(&self, platform: Platform) -> (r: bool)
        ensures
            r == self.spec_prefer_no_extension(platform),
    {
        match (self, platform) {
            (Self::Bash, Platform::Posix) => true,
            _ => false,
        }
    }

    /// Maps every name to its interpreter, failing on the first unknown name.
    pub fn try_collect(names: Option<&Vec<String>>) -> (r: Result<Option<Vec<Self>>, ScuError>)
        ensures
            r is Ok <==> collect_ok(names_view(names)),
            r matches Ok(v) ==> interpreters_view(v) == collected(names_view(names)),
            r matches Err(e) ==> collect_error(names_view(names), e),
    {
        match names {
            None => Ok(None),
            Some(ns) => {
                let ghost dv = ns.deep_view();
                let mut v: Vec<Self> = Vec::new();
                let mut i: usize = 0;
                while i < ns.len()
                    invariant
                        i <= ns.len(),
                        names == Some(ns),
                        dv == ns.deep_view(),
                        all_known(dv.take(i as int)),
                        v@ == interpreters_of(dv.take(i as int)),
                    decreases ns.len() - i,
                {
                    match Self::from_name(ns[i].as_str()) {
                        Some(it) => {
                            v.push(it);
                            proof {
                                assert(dv.take(i as int + 1) =~= dv.take(i as int).push(dv[i as int]));
                                assert(v@ =~= interpreters_of(dv.take(i as int + 1)));
                            }
                        },
                        None => {
                            assert(!all_known(dv));
                            let e = ScuError::UnknownInterpreter(ns[i].clone());
                            assert(first_unknown(dv, i as int));
                            assert(reports_unknown(e, dv[i as int]));
                            assert(exists|k: int| first_unknown(dv, k) && #[trigger] reports_unknown(e, dv[k]));
                            return Err(e);
                        },
                    }
                    i = i + 1;
                }
                assert(dv.take(ns.len() as int) =~= dv);
                Ok(Some(v))
            },
        }
    }
}

} // verus!
