use vstd::prelude::*;
use vstd::string::StringExecFns;

verus! {

/// Failure of one call, as the host sees it.
#[derive(Debug, Clone, PartialEq, Eq)]
pub enum Error {
    /// The host's input did not have the shape of the request.
    Deserialization(String),
    /// The backend could not carry out the request.
    Backend(String),
}

/// Result of every call of the plugin.
pub type Result<T> = core::result::Result<T, Error>;

/// Text that introduces the message of an error of the given kind.
pub open spec fn kind_prefix(e: Error) -> Seq<char> {
    match e {
        Error::Deserialization(_) => "deserialization error: "@,
        Error::Backend(_) => "backend error: "@,
    }
}

/// The detail that an error carries.
pub open spec fn detail(e: Error) -> Seq<char> {
    match e {
        Error::Deserialization(m) => m@,
        Error::Backend(m) => m@,
    }
}

impl Error {
    /// Human-readable message: the kind of the failure, then its detail.
    pub fn message(&self) -> (r: String)
        ensures
            r@ == kind_prefix(*self) + detail(*self),
    {
        proof {
            reveal_strlit("deserialization error: ");
            reveal_strlit("backend error: ");
        }
        match self {
            Error::Deserialization(m) => String::from_str("deserialization error: ").concat(m.as_str()),
            Error::Backend(m) => String::from_str("backend error: ").concat(m.as_str()),
        }
    }
}

} // verus!
