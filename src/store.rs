//! What the commands decide from the outcome of reading the store file.
use vstd::prelude::*;
use crate::todo::{Todo, display_order, sorted_for_display};

verus! {

/// Why the store file could not be read.
#[derive(Debug, Clone, Copy, PartialEq, Eq, Structural)]
pub enum StoreError {
    /// The file does not exist.
    NotFound,
    /// The file exists but reading it failed.
    Io,
    /// The content is not a JSON array of todo records.
    Decode,
}

/// What `list` shows.
#[derive(Debug)]
pub enum ListView {
    /// There is nothing to list: the store is empty or absent.
    NoTodos,
    /// The store exists but could not be read.
    ReadFailed,
    /// The records, in display order.
    Items(Vec<Todo>),
}

/// What `add` does to the file when reading it failed, before it starts over
/// from an empty list.
#[derive(Debug, Clone, Copy, PartialEq, Eq, Structural)]
pub enum Recovery {
    /// No file yet: write an empty store.
    CreateEmpty,
    /// A file that cannot be read: move it aside to the backup path.
    BackUp,
}

/// The view `list` prints for the outcome of reading the store: an empty or
/// absent store lists nothing, an unreadable one is reported, and otherwise
/// the records are shown with the pending ones first.
pub fn list_view(loaded: Result<Vec<Todo>, StoreError>) -> (r: ListView)
    ensures
        match loaded {
            Ok(v) => if v@.len() == 0 {
                r is NoTodos
            } else {
                r matches ListView::Items(w) && w@ == display_order(v@)
            },
            Err(e) => if e == StoreError::NotFound {
                r is NoTodos
            } else {
                r is ReadFailed
            },
        },
{
    match loaded {
        Ok(v) => {
            if v.len() == 0 {
                ListView::NoTodos
            } else {
                ListView::Items(sorted_for_display(&v))
            }
        },
        Err(StoreError::NotFound) => ListView::NoTodos,
        Err(_) => ListView::ReadFailed,
    }
}

/// How `add` recovers from a failed read: a missing file is created empty,
/// any other failure moves the existing file aside.
pub fn recovery_for_add(err: StoreError) -> (r: Recovery)
    ensures
        r == (if err == StoreError::NotFound {
            Recovery::CreateEmpty
        } else {
            Recovery::BackUp
        }),
{
    match err {
        StoreError::NotFound => Recovery::CreateEmpty,
        _ => Recovery::BackUp,
    }
}

/// The records read, or an empty list when reading failed: the commands
/// other than `add` go on with an empty list and do not recover.
pub fn todos_or_empty(loaded: Result<Vec<Todo>, StoreError>) -> (r: Vec<Todo>)
    ensures
        loaded matches Ok(v) ==> r == v,
        loaded is Err ==> r@.len() == 0,
{
    match loaded {
        Ok(v) => v,
        Err(_) => Vec::new(),
    }
}

} // verus!
