//! The errors of the tool.
use vstd::prelude::*;

verus! {

/// Why a prepend request was refused or failed.
///
/// The path variants hold the target path as it was given; `Io` holds the
/// description of a failed file operation.
#[derive(Debug, PartialEq, Eq)]
pub enum PrependError {
    /// The target path does not exist.
    FileNotFound(String),
    /// The target path exists but is not a regular file.
    NotAFile(String),
    /// The target file cannot be opened for writing.
    NotWritable(String),
    /// The text read interactively was empty or white space only.
    EmptyInput,
    /// A file operation failed.
    Io(String),
}

/// A path as messages show it: between double quotes.
pub open spec fn quoted(path: Seq<char>) -> Seq<char> {
    seq!['"'] + path + seq!['"']
}

/// The message that describes `e`.
pub open spec fn message_of(e: PrependError) -> Seq<char> {
    match e {
        PrependError::FileNotFound(p) => "File "@ + quoted(p@) + " does not exist."@,
        PrependError::NotAFile(p) => quoted(p@) + " is not a regular file."@,
        PrependError::NotWritable(p) => "File "@ + quoted(p@) + " is not writable."@,
        PrependError::EmptyInput => "Input text is empty."@,
        PrependError::Io(m) => m@,
    }
}

/// Writes `path` between double quotes.
pub fn quote(path: &str) -> (r: String)
    ensures
        r@ == quoted(path@),
{
    let mut r = String::from_str("\"");
    r.append(path);
    r.append("\"");
    proof { reveal_strlit("\""); }
    r
}

impl PrependError {
    /// The human-readable description of this error.
    pub fn message(&self) -> (r: String)
        ensures
            r@ == message_of(*self),
    {
        match self {
            PrependError::FileNotFound(p) => {
                let mut r = String::from_str("File ");
                let q = quote(p.as_str());
                r.append(q.as_str());
                r.append(" does not exist.");
                proof {
                    reveal_strlit("File ");
                    reveal_strlit(" does not exist.");
                }
                r
            },
            PrependError::NotAFile(p) => {
                let mut r = quote(p.as_str());
                r.append(" is not a regular file.");
                proof { reveal_strlit(" is not a regular file."); }
                r
            },
            PrependError::NotWritable(p) => {
                let mut r = String::from_str("File ");
                let q = quote(p.as_str());
                r.append(q.as_str());
                r.append(" is not writable.");
                proof {
                    reveal_strlit("File ");
                    reveal_strlit(" is not writable.");
                }
                r
            },
            PrependError::EmptyInput => {
                proof { reveal_strlit("Input text is empty."); }
                String::from_str("Input text is empty.")
            },
            PrependError::Io(m) => m.clone(),
        }
    }

    /// A copy of this error.
    pub fn duplicate(&self) -> (r: PrependError)
        ensures
            r == *self,
    {
        match self {
            PrependError::FileNotFound(p) => PrependError::FileNotFound(p.clone()),
            PrependError::NotAFile(p) => PrependError::NotAFile(p.clone()),
            PrependError::NotWritable(p) => PrependError::NotWritable(p.clone()),
            PrependError::EmptyInput => PrependError::EmptyInput,
            PrependError::Io(m) => PrependError::Io(m.clone()),
        }
    }

    /// The error for a failed file operation, from its description.
    pub fn from_io(description: String) -> (r: PrependError)
        ensures
            r == PrependError::Io(description),
    {
        PrependError::Io(description)
    }
}

} // verus!
