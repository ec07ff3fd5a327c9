use vstd::prelude::*;
use vstd::string::StringExecFns;

verus! {

/// The failures a configuration store can report.
///
/// Every fallible operation of this crate returns one of these kinds:
/// `Path` when the platform configuration directory cannot be determined,
/// `File` when the backing file cannot be read or written, `Parse` when the
/// backing file does not hold a valid string-to-string mapping, and `Other`
/// for remaining conditions such as a serialization failure or a
/// configuration directory path that is not valid unicode.
#[derive(Debug, Clone, PartialEq, Hash)]
pub enum Error {
    Other(String),
    Path(String),
    File(String),
    Parse(String),
}

/// The descriptive text of an error: its kind, then its detail message.
pub open spec fn spec_message(e: &Error) -> Seq<char> {
    match e {
        Error::Other(s) => "Other Error: "@ + s@,
        Error::Path(s) => "Error getting path: "@ + s@,
        Error::File(s) => "Error getting file data: "@ + s@,
        Error::Parse(s) => "Error parsing file: "@ + s@,
    }
}

impl Error {
    /// A human-readable description of the error.
    pub fn message(&self) -> (r: String)
        ensures
            r@ == spec_message(self),
    {
        match self {
            Error::Other(s) => "Other Error: ".to_owned().concat(s.as_str()),
            Error::Path(s) => "Error getting path: ".to_owned().concat(s.as_str()),
            Error::File(s) => "Error getting file data: ".to_owned().concat(s.as_str()),
            Error::Parse(s) => "Error parsing file: ".to_owned().concat(s.as_str()),
        }
    }
}

} // verus!
