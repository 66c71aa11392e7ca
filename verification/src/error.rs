//! The one error type of the library.

use vstd::prelude::*;

verus! {

/// Why an operation of the module layer failed.
#[derive(Clone, Copy, Debug, PartialEq, Eq, Structural)]
pub enum KpmError {
    /// A text argument holds an embedded NUL byte and cannot be handed to the
    /// kernel as a NUL-terminated string.
    Encoding,
    /// The kernel answered with a negative result; `errno` is its negation,
    /// to be read as a platform error code.
    Kernel { errno: u32 },
    /// The version token was empty or began with the `Error` marker.
    InvalidVersion,
    /// A path is not valid UTF-8 text.
    BadPath,
    /// The driver reported that a file-system step failed.
    FileSystem,
    /// The driver could not register the directory watch.
    Watch,
    /// The driver answered a step with an outcome of another kind than the
    /// step asks for.
    OutOfOrder,
}

} // verus!
