//! What can go wrong in a sync.

use vstd::prelude::*;

verus! {

/// A broken invariant of the store's structure.
#[derive(Clone, Copy, Debug, PartialEq, Eq, Structural)]
pub enum Corruption {
    /// The local tree has no synthetic root.
    InvalidLocalRoots,
    /// The mirror has no synthetic root.
    InvalidSyncedRoots,
    /// An item is its own ancestor.
    Cycle,
}

/// Why the merger could not build or merge a tree.
#[derive(Clone, Copy, Debug, PartialEq, Eq, Structural)]
pub enum MergeError {
    MismatchedItemKind,
    DuplicateItem,
    InvalidParent,
    MissingParent,
    MissingItem,
    Cycle,
    MergeConflict,
    UnmergedLocalItems,
    UnmergedRemoteItems,
    InvalidGuid,
    InvalidByte,
    MalformedString,
}

/// An error of the sync engine.
#[derive(Clone, Copy, Debug, PartialEq, Eq, Structural)]
pub enum ErrorKind {
    /// The operation was cancelled; the caller may try again.
    Interrupted,
    /// The store's structure is broken; only a reset helps.
    Corruption(Corruption),
    /// An incoming record is malformed.
    InvalidPayload,
    /// The merger could not build or merge the trees. This ends the sync,
    /// and leaves the store as it was.
    Merge(MergeError),
    /// The store has no room for another row.
    Storage,
}

impl ErrorKind {
    /// The error in words.
    pub open spec fn text(self) -> Seq<char> {
        match self {
            ErrorKind::Interrupted => "The operation was interrupted"@,
            ErrorKind::Corruption(Corruption::InvalidLocalRoots) => "The local roots are invalid"@,
            ErrorKind::Corruption(Corruption::InvalidSyncedRoots) => "The synced roots are invalid"@,
            ErrorKind::Corruption(Corruption::Cycle) => "An item contains itself"@,
            ErrorKind::InvalidPayload => "The incoming record is malformed"@,
            ErrorKind::Merge(_) => "The trees could not be merged"@,
            ErrorKind::Storage => "The store is full"@,
        }
    }

    /// The error in words.
    pub fn message(&self) -> (r: &'static str)
        ensures
            r@ == self.text(),
    {
        match self {
            ErrorKind::Interrupted => "The operation was interrupted",
            ErrorKind::Corruption(Corruption::InvalidLocalRoots) => "The local roots are invalid",
            ErrorKind::Corruption(Corruption::InvalidSyncedRoots) => "The synced roots are invalid",
            ErrorKind::Corruption(Corruption::Cycle) => "An item contains itself",
            ErrorKind::InvalidPayload => "The incoming record is malformed",
            ErrorKind::Merge(_) => "The trees could not be merged",
            ErrorKind::Storage => "The store is full",
        }
    }
}

} // verus!
