//! The library's error type.
use vstd::prelude::*;
use vstd::string::StringExecFns;

verus! {

/// What can go wrong in a request.
pub enum PanError {
    /// Reading a file failed; carries the system's message.
    Io(String),
    /// A number could not be read; carries the reason.
    Parse(String),
    /// Any other failure, with its message.
    CommonErr(String),
}

impl PanError {
    /// The readable message of the error.
    pub open spec fn message_spec(&self) -> Seq<char> {
        match self {
            PanError::Io(m) => "An IO error occurred: "@ + m@,
            PanError::Parse(m) => "Failed to parse an integer: "@ + m@,
            PanError::CommonErr(m) => "Common-err occurred: '"@ + m@ + "' "@,
        }
    }

    /// A variant-by-variant copy.
    pub fn duplicate(&self) -> (r: PanError)
        ensures
            r == *self,
    {
        match self {
            PanError::Io(m) => PanError::Io(m.clone()),
            PanError::Parse(m) => PanError::Parse(m.clone()),
            PanError::CommonErr(m) => PanError::CommonErr(m.clone()),
        }
    }

    /// Writes the readable message of the error.
    pub fn message(&self) -> (r: String)
        ensures
            r@ == self.message_spec(),
    {
        match self {
            PanError::Io(m) => {
                let mut s = String::from_str("An IO error occurred: ");
                s.append(m.as_str());
                s
            },
            PanError::Parse(m) => {
                let mut s = String::from_str("Failed to parse an integer: ");
                s.append(m.as_str());
                s
            },
            PanError::CommonErr(m) => {
                let mut s = String::from_str("Common-err occurred: '");
                s.append(m.as_str());
                s.append("' ");
                s
            },
        }
    }
}

} // verus!
