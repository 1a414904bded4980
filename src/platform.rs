use vstd::prelude::*;

verus! {

/// The operating-system family that launchers are generated for.
#[derive(Clone, Copy, Debug, PartialEq, Eq, Structural)]
pub enum Platform {
    Windows,
    Posix,
}

impl Platform {
    /// Whether the platform has a per-user autorun folder.
    pub open spec fn spec_supports_startup(self) -> bool {
        self is Windows
    }

    /// The separator written between path components inside generated launchers.
    pub open spec fn spec_script_separator(self) -> Seq<char> {
        match self {
            Platform::Windows => "\\"@,
            Platform::Posix => "/"@,
        }
    }

    pub fn supports_startup(&self) -> (r: bool)
        ensures
            r == self.spec_supports_startup(),
    {
        match self {
            Platform::Windows => true,
            Platform::Posix => false,
        }
    }

    pub fn script_separator(&self) -> (r: &'static str)
        ensures
            r@ == self.spec_script_separator(),
    {
        match self {
            Platform::Windows => "\\",
            Platform::Posix => "/",
        }
    }
}

} // verus!
