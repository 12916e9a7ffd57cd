use vstd::prelude::*;
use vstd::string::StrSliceExecFns;
use crate::error::PipeError;
use crate::text::same_text;

verus! {

/// A hidden name: it starts with `.` or is the thumbnail cache `Thumbs.db`.
pub open spec fn is_hidden(s: Seq<char>) -> bool {
    (s.len() > 0 && s[0] == '.') || s == "Thumbs.db"@
}

/// The name of a pipe's entry script.
pub open spec fn is_entry_name(s: Seq<char>) -> bool {
    (s == "pipe.js"@ || s == "pipe.ts"@) && !is_hidden(s)
}

/// What a recursive copy does with one directory entry.
#[derive(Debug, Clone, Copy, PartialEq, Eq, Structural)]
pub enum EntryAction {
    /// Neither copied nor descended into.
    Skip,
    /// A directory: create it at the destination and copy its entries.
    Descend,
    /// A file: copy its bytes.
    Copy,
}

/// Whether a file name is hidden and so never copied or downloaded.
pub fn is_hidden_file(name: &str) -> (r: bool)
    ensures
        r == is_hidden(name@),
{
    let n = name.unicode_len();
    if n > 0 && name.get_char(0) == '.' {
        true
    } else {
        same_text(name, "Thumbs.db")
    }
}

/// What a recursive copy does with an entry named `name`: hidden entries are
/// skipped, directories descended into, anything else copied.
pub fn copy_action(name: &str, is_dir: bool) -> (r: EntryAction)
    ensures
        r == (if is_hidden(name@) {
            EntryAction::Skip
        } else if is_dir {
            EntryAction::Descend
        } else {
            EntryAction::Copy
        }),
{
    if is_hidden_file(name) {
        EntryAction::Skip
    } else if is_dir {
        EntryAction::Descend
    } else {
        EntryAction::Copy
    }
}

/// Whether `name` names a pipe's entry script.
pub fn is_entry_file(name: &str) -> (r: bool)
    ensures
        r == is_entry_name(name@),
{
    (same_text(name, "pipe.js") || same_text(name, "pipe.ts")) && !is_hidden_file(name)
}

/// The position of the first entry script among the names of a pipe
/// directory's entries, in the order the scan met them.
pub fn find_pipe_file(names: &Vec<String>) -> (r: Result<usize, PipeError>)
    ensures
        match r {
            Ok(i) => i < names@.len() && is_entry_name(names@[i as int]@) && forall|j: int|
                0 <= j < i ==> !is_entry_name(#[trigger] names@[j]@),
            Err(e) => e == PipeError::NoEntryFile && forall|j: int|
                0 <= j < names@.len() ==> !is_entry_name(#[trigger] names@[j]@),
        },
{
    let mut i: usize = 0;
    while i < names.len()
        invariant
            i <= names@.len(),
            forall|j: int| 0 <= j < i ==> !is_entry_name(#[trigger] names@[j]@),
        decreases names@.len() - i,
    {
        if is_entry_file(names[i].as_str()) {
            return Ok(i);
        }
        i = i + 1;
    }
    Err(PipeError::NoEntryFile)
}

} // verus!
