//! The records that the bot stores.

use vstd::prelude::*;
use crate::datetime::DateTime;

verus! {

/// A note of one user.
#[derive(Clone, Debug)]
pub struct Note {
    pub id: i64,
    pub user_id: i64,
    pub title: String,
    pub content: String,
    pub created_at: DateTime,
    pub updated_at: DateTime,
}

/// A reminder about a note, due at `remind_at`.
#[derive(Clone, Debug)]
pub struct Reminder {
    pub id: i64,
    pub note_id: i64,
    pub remind_at: DateTime,
    pub is_sent: bool,
}

impl Note {
    /// Both time stamps are date-times that `chrono` can represent, as every
    /// note read from storage has.
    pub open spec fn wf(self) -> bool {
        self.created_at.valid() && self.updated_at.valid()
    }
}

/// Every note of the sequence is well formed.
pub open spec fn all_wf(notes: Seq<Note>) -> bool {
    forall|i: int| 0 <= i < notes.len() ==> (#[trigger] notes[i]).wf()
}


impl Note {
    /// Whether both time stamps are date-times that `chrono` can represent.
    pub fn is_well_formed(&self) -> (b: bool)
        ensures
            b == self.wf(),
    {
        self.created_at.is_valid() && self.updated_at.is_valid()
    }
}

} // verus!
