use vstd::prelude::*;

verus! {

/// What can go wrong at the boundary with the host.
#[derive(Debug, Clone, PartialEq, Eq)]
pub enum Error {
    /// The host reported a failure with this code.
    ObsError(i32),
    /// The host handed over a null address where an object was expected.
    NulPointer(&'static str),
    /// A string holds a NUL byte at this byte offset and cannot be handed to the host.
    NulError(usize),
    /// Bytes from the host stop being UTF-8 at this byte offset.
    Utf8Error(usize),
    /// A native value (second field) names no variant of the enum (first field).
    EnumOutOfRange(&'static str, i64),
}

pub type Result<T, E = Error> = std::result::Result<T, E>;

/// Turns the absence of a value into [`Error::NulPointer`].
pub trait OptionExt {
    fn null_pointer(self, msg: &'static str) -> Result<()>;
}

impl OptionExt for Option<()> {
    fn null_pointer(self, msg: &'static str) -> (r: Result<()>)
        ensures
            self is Some ==> r == Ok::<(), Error>(()),
            self is None ==> r == Err::<(), Error>(Error::NulPointer(msg)),
    {
        match self {
            Some(_) => Ok(()),
            None => Err(Error::NulPointer(msg)),
        }
    }
}

} // verus!
