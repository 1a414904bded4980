use vstd::prelude::*;

verus! {

/// Every way an operation of the library can fail.
///
/// Failures that come from the filesystem or from the record format are
/// carried as the message that the layer doing the I/O produced.
#[derive(Clone, Debug, PartialEq, Eq)]
pub enum ScuError {
    /// A filesystem read, write or removal failed (including "not found").
    IoError(String),
    /// A record file could not be parsed.
    DeserializeError(String),
    /// A record could not be formatted.
    SerializeError(String),
    /// A name that is not in the interpreter registry.
    UnknownInterpreter(String),
    /// A command with no program token.
    EmptyCommand,
    /// Autorun registration was asked for on a platform without an autorun folder.
    UnsupportedPlatform,
    /// A builder was finalized before its name and body were set.
    IncompleteShortcut,
    /// A resource source path that does not end in a file name.
    MissingFileName,
}

} // verus!
