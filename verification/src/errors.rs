use vstd::prelude::*;
use vstd::string::StringExecFns;

verus! {

/// Error raised by the pipeline stages' own validation. Failures of the
/// underlying image library and of file I/O never originate here: they are
/// the driver's concern and are wrapped outside the library.
#[derive(Debug)]
pub enum UcchError {
    /// The caller supplied an inconsistent or out-of-bounds parameter set.
    /// Carries a caller-directed, human-readable diagnostic message.
    InvalidArgument(String),
}

impl UcchError {
    /// The diagnostic message carried by the error.
    pub open spec fn spec_message(&self) -> Seq<char> {
        match self {
            UcchError::InvalidArgument(m) => m@,
        }
    }

    /// Borrow the diagnostic message for display.
    pub fn message(&self) -> (r: &str)
        ensures
            r@ == self.spec_message(),
    {
        match self {
            UcchError::InvalidArgument(m) => m.as_str(),
        }
    }

    /// Build an invalid-argument error from a message literal.
    pub fn invalid_argument(message: &str) -> (e: UcchError)
        ensures
            e.spec_message() == message@,
    {
        UcchError::InvalidArgument(String::from_str(message))
    }
}

} // verus!
