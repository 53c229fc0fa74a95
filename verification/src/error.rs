//! The closed set of reasons an attempted process replacement can fail.

use vstd::prelude::*;
use vstd::string::StringExecFns;

verus! {

/// An error from an attempted `exec`.
///
/// This is marked `#[must_use]`, which is unusual for an error type: the
/// functions that yield it return it bare, because reaching their return at
/// all already means the replacement failed.
#[derive(Clone, Copy, Debug, PartialEq, Eq, Structural)]
#[must_use]
pub enum Error {
    /// A string passed to `exec` contained an interior NUL byte and cannot
    /// be handed to the operating system, which reads strings up to the
    /// first zero byte.
    NullByteInArgument,
    /// The operating system declined to replace the process image; the
    /// payload is its native error code, read immediately after the call
    /// returned.
    Errno(i32),
}

/// Relies on the `Display` impl of `errno::Errno`, which renders the
/// operating system's own description of an error code (via `strerror`).
/// The text depends on the platform and locale, so nothing is promised
/// of it.
#[verifier::external_body]
fn errno_description(code: i32) -> String {
    format!("{}", errno::Errno(code))
}

impl From<i32> for Error {
    /// Wrap an operating-system error code.
    fn from(code: i32) -> Error {
        Error::Errno(code)
    }
}

impl vstd::std_specs::convert::FromSpecImpl<i32> for Error {
    open spec fn obeys_from_spec() -> bool {
        true
    }

    open spec fn from_spec(code: i32) -> Error {
        Error::Errno(code)
    }
}

/// Classify what the process-replacement primitive yielded once it has
/// returned at all. `res` is the primitive's return value and `code` the
/// error number read immediately after, before anything else could
/// clobber it. The operating system's contract leaves only one observable
/// way to be here — a failure indication — so any other return value is
/// an unrecoverable invariant violation that the caller must treat as
/// fatal rather than hand to this function.
pub fn classify_return(res: i32, code: i32) -> (r: Error)
    requires
        res < 0,
    ensures
        r == Error::Errno(code),
{
    Error::Errno(code)
}

impl Error {
    /// A human-readable description of the failure, suitable for direct
    /// display.
    pub fn message(&self) -> (r: String)
        ensures
            self is NullByteInArgument ==> r@ == "interior NUL byte in string argument to exec"@,
            self is Errno ==> "couldn't exec process: "@.is_prefix_of(r@),
    {
        match self {
            Error::NullByteInArgument => {
                String::from_str("interior NUL byte in string argument to exec")
            },
            Error::Errno(code) => {
                let prefix = String::from_str("couldn't exec process: ");
                let desc = errno_description(*code);
                let r = prefix.concat(desc.as_str());
                proof {
                    assert("couldn't exec process: "@ =~= r@.subrange(
                        0,
                        "couldn't exec process: "@.len() as int,
                    ));
                }
                r
            },
        }
    }
}

} // verus!
