//! The record type, its abstract value, and the `NotFound` error.

use vstd::prelude::*;

verus! {

/// The mathematical value of a stored record: the identifier, the two text
/// fields as character sequences, and the creation time in milliseconds
/// since the Unix epoch.
pub ghost struct RecordView {
    pub id: u64,
    pub title: Seq<char>,
    pub content: Seq<char>,
    pub created_at: i64,
}

/// A memo record. `id` and `created_at` are assigned when the record is
/// created and never change afterwards; `title` and `content` are replaced
/// together by an update.
#[derive(Debug, PartialEq, Eq)]
pub struct Record {
    pub id: u64,
    pub title: String,
    pub content: String,
    pub created_at: i64,
}

impl View for Record {
    type V = RecordView;

    open spec fn view(&self) -> RecordView {
        RecordView {
            id: self.id,
            title: self.title@,
            content: self.content@,
            created_at: self.created_at,
        }
    }
}

impl Clone for Record {
    fn clone(&self) -> (r: Self)
        ensures
            r == *self,
    {
        Record {
            id: self.id,
            title: self.title.clone(),
            content: self.content.clone(),
            created_at: self.created_at,
        }
    }
}

/// The sole domain error: an id-addressed operation named an identifier that
/// no current record carries, because it was never assigned or because the
/// record was deleted.
#[derive(Debug, Clone, Copy, PartialEq, Eq, Structural)]
pub struct NotFound;

} // verus!
