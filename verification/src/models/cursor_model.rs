//! The marker of how far the crawler has read.

use crate::models::object_id::ObjectId;
use vstd::prelude::*;

verus! {

/// The signature of the newest transaction that has been processed.
#[derive(Clone, Debug, PartialEq, Eq)]
pub struct Cursor {
    pub signature: String,
}

impl View for Cursor {
    type V = Seq<char>;

    open spec fn view(&self) -> Seq<char> {
        self.signature@
    }
}

impl Default for Cursor {
    fn default() -> (cursor: Cursor)
        ensures
            cursor@ == Seq::<char>::empty(),
    {
        Cursor { signature: String::new() }
    }
}

/// The cursor as the store holds it.
#[derive(Clone, Debug, PartialEq, Eq)]
pub struct CursorWrapper {
    /// Absent until the store has assigned one.
    pub id: Option<ObjectId>,
    pub cursor: Cursor,
}

impl Default for CursorWrapper {
    fn default() -> (wrapper: CursorWrapper)
        ensures
            wrapper.id.is_none(),
            wrapper.cursor@ == Seq::<char>::empty(),
    {
        CursorWrapper { id: None, cursor: Cursor::default() }
    }
}

} // verus!
