//! The one kind of failure: an error of the operating system, passed on as it came.

use vstd::prelude::*;

verus! {

/// The line that `nix` prints for the error number `errno`: what `Display` gives for
/// `nix::errno::Errno::from_i32(errno)`.
pub uninterp spec fn errno_text(errno: i32) -> Seq<char>;

/// A failed operation on the device.
///
/// The number is the `errno` that the operating system reported for the system call
/// behind the operation. All failures are of this kind, none is told from another.
#[derive(Debug, Clone, Copy, PartialEq, Eq, Structural)]
pub enum Error {
    NixError(i32),
}

impl Error {
    /// The error number that the operating system reported.
    pub open spec fn errno(self) -> i32 {
        match self {
            Error::NixError(errno) => errno,
        }
    }

    /// The error in words, as `nix` prints the error number.
    pub fn message(&self) -> (text: String)
        ensures
            text@ == errno_text(self.errno()),
    {
        match self {
            Error::NixError(errno) => errno_line(*errno),
        }
    }
}

/// Calls `nix::errno::Errno::from_i32` and then the `Display` of the `Errno` it gives.
///
/// Claimed of `nix`: the text depends on the number alone, so it is `errno_text` of that
/// number. `from_i32` accepts every `i32` (a number it does not know becomes
/// `UnknownErrno`), and the `Display` writes the variant's name, a colon and `desc()`.
#[verifier::external_body]
fn errno_line(errno: i32) -> (text: String)
    ensures
        text@ == errno_text(errno),
{
    nix::errno::Errno::from_i32(errno).to_string()
}

} // verus!
