//! Items that go up sync after sync.

use vstd::prelude::*;
use crate::fragments::{decimal, digits, signed_to_string, unsigned_to_string};
use crate::types::Timestamp;

verus! {

/// An item that went up in each of a number of consecutive syncs. This may
/// be the sign of a loop, in which two clients undo each other's repairs.
#[derive(Debug)]
pub struct ConsecutiveReupload {
    pub guid: String,
    pub started_at: Timestamp,
    pub stopped_at: Timestamp,
    pub count: i64,
}

impl ConsecutiveReupload {
    /// The report in words.
    pub open spec fn text(self) -> Seq<char> {
        "Item "@ + self.guid@ + " was reuploaded for "@ + decimal(self.count as int)
            + " syncs between "@ + digits(self.started_at.0 as nat) + " and "@ + digits(
            self.stopped_at.0 as nat,
        )
    }

    /// The report in words.
    pub fn to_string(&self) -> (r: String)
        ensures
            r@ == self.text(),
    {
        let mut text = "Item ".to_owned();
        text.append(self.guid.as_str());
        text.append(" was reuploaded for ");
        text.append(signed_to_string(self.count).as_str());
        text.append(" syncs between ");
        text.append(unsigned_to_string(self.started_at.0).as_str());
        text.append(" and ");
        text.append(unsigned_to_string(self.stopped_at.0).as_str());
        text
    }
}

} // verus!
