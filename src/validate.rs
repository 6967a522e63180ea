//! Whether a target may be prepended to, and the advisory on its extension.
use vstd::prelude::*;

use crate::error::PrependError;
use crate::paths::{extension, extension_spec};

verus! {

/// What the file system reports of a target path.
#[derive(Debug, Clone, Copy, PartialEq, Eq)]
pub struct FileStatus {
    /// Something exists at the path.
    pub exists: bool,
    /// What exists there is a regular file.
    pub is_file: bool,
    /// The file can be opened for writing.
    pub writable: bool,
}

/// Whether a target with status `st` is accepted.
pub open spec fn accepted(st: FileStatus) -> bool {
    st.exists && st.is_file && st.writable
}

/// Whether `r` is the outcome of validating `path` with status `st`: the
/// first of the three conditions that fails decides the error, which holds
/// the path.
pub open spec fn validation(path: Seq<char>, st: FileStatus, r: Result<(), PrependError>) -> bool {
    if !st.exists {
        r matches Err(PrependError::FileNotFound(p)) && p@ == path
    } else if !st.is_file {
        r matches Err(PrependError::NotAFile(p)) && p@ == path
    } else if !st.writable {
        r matches Err(PrependError::NotWritable(p)) && p@ == path
    } else {
        r is Ok
    }
}

/// Accepts or refuses the target `path`, given what the file system reports
/// of it.
pub fn validate_file(path: &str, status: &FileStatus) -> (r: Result<(), PrependError>)
    ensures
        validation(path@, *status, r),
        r is Ok <==> accepted(*status),
{
    if !status.exists {
        return Err(PrependError::FileNotFound(String::from_str(path)));
    }
    if !status.is_file {
        return Err(PrependError::NotAFile(String::from_str(path)));
    }
    if !status.writable {
        return Err(PrependError::NotWritable(String::from_str(path)));
    }
    Ok(())
}

/// Validation of a target that exists, is a regular file and is writable
/// succeeds, on every call: its outcome depends on the path and the status
/// alone.
pub proof fn law_validation_repeatable(
    path: Seq<char>,
    st: FileStatus,
    first: Result<(), PrependError>,
    again: Result<(), PrependError>,
)
    requires
        accepted(st),
        validation(path, st, first),
        validation(path, st, again),
    ensures
        first is Ok,
        first == again,
{
    let u: () = first->Ok_0;
    let v: () = again->Ok_0;
    assert(u == v);
    assert(first == Ok::<(), PrependError>(u));
    assert(again == Ok::<(), PrependError>(v));
}

/// The extensions that are accepted without an advisory, in lower case.
pub open spec fn allowed_list() -> Seq<Seq<char>> {
    seq![
        "txt"@, "log"@, "md"@, "sh"@, "conf"@, "yaml"@, "json"@, "csv"@, "cfg"@, "ini"@, "c"@,
        "cpp"@, "h"@, "py"@, "js"@, "rs"@,
    ]
}

/// Whether `a` is `b`, or its upper-case ASCII letter.
pub open spec fn char_folds_to(a: char, b: char) -> bool {
    a == b || ('a' <= b && b <= 'z' && a as u32 + 32 == b as u32)
}

/// Whether `e` equals the lower-case `lower` but for the case of ASCII letters.
pub open spec fn folds_to(e: Seq<char>, lower: Seq<char>) -> bool {
    e.len() == lower.len() && forall|i: int| 0 <= i < e.len() ==> char_folds_to(#[trigger] e[i], lower[i])
}

/// Whether the extension `e` is in the allow-list, case-insensitively.
pub open spec fn allowed(e: Seq<char>) -> bool {
    exists|k: int| 0 <= k < allowed_list().len() && folds_to(e, #[trigger] allowed_list()[k])
}

/// The extensions that are accepted without an advisory.
pub fn allowed_extensions() -> (r: Vec<&'static str>)
    ensures
        r@.len() == allowed_list().len(),
        forall|k: int| 0 <= k < r@.len() ==> (#[trigger] r@[k])@ == allowed_list()[k],
{
    let r = vec![
        "txt", "log", "md", "sh", "conf", "yaml", "json", "csv", "cfg", "ini", "c", "cpp", "h", "py",
        "js", "rs",
    ];
    assert(r@.len() == allowed_list().len());
    r
}

/// Whether `e` equals the lower-case `lower` but for the case of ASCII letters.
pub fn equals_folded(e: &str, lower: &str) -> (r: bool)
    ensures
        r == folds_to(e@, lower@),
{
    let n = e.unicode_len();
    if n != lower.unicode_len() {
        return false;
    }
    let mut i: usize = 0;
    while i < n
        invariant
            n == e@.len() == lower@.len(),
            i <= n,
            forall|j: int| 0 <= j < i ==> char_folds_to(#[trigger] e@[j], lower@[j]),
        decreases n - i,
    {
        let a = e.get_char(i);
        let b = lower.get_char(i);
        let same = a == b || ('a' <= b && b <= 'z' && (a as u32) + 32 == b as u32);
        if !same {
            return false;
        }
        i = i + 1;
    }
    true
}

/// Whether the extension `e` is in the allow-list, case-insensitively.
pub fn is_allowed_extension(e: &str) -> (r: bool)
    ensures
        r == allowed(e@),
{
    let list = allowed_extensions();
    let mut k: usize = 0;
    while k < list.len()
        invariant
            list@.len() == allowed_list().len(),
            forall|j: int| 0 <= j < list@.len() ==> (#[trigger] list@[j])@ == allowed_list()[j],
            k <= list.len(),
            forall|j: int| 0 <= j < k ==> !folds_to(e@, #[trigger] allowed_list()[j]),
        decreases list.len() - k,
    {
        if equals_folded(e, list[k]) {
            assert(folds_to(e@, allowed_list()[k as int]));
            return true;
        }
        k = k + 1;
    }
    false
}

/// The advisory for a target whose extension is not in the allow-list, if
/// any: a file name without an extension draws none.
pub open spec fn warning_of(path: Seq<char>) -> Option<Seq<char>> {
    match extension_spec(path) {
        Some(e) => if allowed(e) {
            None
        } else {
            Some("Uncommon extension '."@ + e + "'. Proceeding..."@)
        },
        None => None,
    }
}

/// The advisory that validation of `path` gives, if any. It never refuses
/// the target.
pub fn extension_warning(path: &str) -> (r: Option<String>)
    ensures
        r is None <==> warning_of(path@) is None,
        r matches Some(w) ==> warning_of(path@) == Some(w@),
{
    match extension(path) {
        Some(e) => {
            if is_allowed_extension(e) {
                None
            } else {
                let mut w = String::from_str("Uncommon extension '.");
                w.append(e);
                w.append("'. Proceeding...");
                proof {
                    reveal_strlit("Uncommon extension '.");
                    reveal_strlit("'. Proceeding...");
                }
                Some(w)
            }
        },
        None => None,
    }
}

} // verus!
