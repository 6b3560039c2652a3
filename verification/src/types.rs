//! Item types, synced kinds, sync states and timestamps.

use vstd::prelude::*;

verus! {

/// The type of an item in the local tree.
#[derive(Clone, Copy, Debug, PartialEq, Eq, Structural)]
pub enum BookmarkType {
    Bookmark,
    Folder,
    Separator,
}

impl BookmarkType {
    /// The number under which the type is stored.
    pub open spec fn code(self) -> u8 {
        match self {
            BookmarkType::Bookmark => 1,
            BookmarkType::Folder => 2,
            BookmarkType::Separator => 3,
        }
    }

    /// The type stored under `v`, if there is one.
    pub fn from_u8(v: u8) -> (r: Option<BookmarkType>)
        ensures
            r matches Some(t) ==> t.code() == v,
            r is None <==> !(1 <= v <= 3),
    {
        if v == 1 {
            Some(BookmarkType::Bookmark)
        } else if v == 2 {
            Some(BookmarkType::Folder)
        } else if v == 3 {
            Some(BookmarkType::Separator)
        } else {
            None
        }
    }

    /// The number under which the type is stored.
    pub fn as_u8(self) -> (r: u8)
        ensures
            r == self.code(),
    {
        match self {
            BookmarkType::Bookmark => 1,
            BookmarkType::Folder => 2,
            BookmarkType::Separator => 3,
        }
    }
}

/// Whether the server has seen a local item.
#[derive(Clone, Copy, Debug, PartialEq, Eq, Structural)]
pub enum SyncStatus {
    Unknown,
    New,
    Normal,
}

impl SyncStatus {
    /// The number under which the status is stored.
    pub open spec fn code(self) -> u8 {
        match self {
            SyncStatus::Unknown => 0,
            SyncStatus::New => 1,
            SyncStatus::Normal => 2,
        }
    }

    /// The status stored under `v`; numbers that name no status read as
    /// `Unknown`.
    pub fn from_u8(v: u8) -> (r: SyncStatus)
        ensures
            v <= 2 ==> r.code() == v,
            v > 2 ==> r == SyncStatus::Unknown,
    {
        if v == 1 {
            SyncStatus::New
        } else if v == 2 {
            SyncStatus::Normal
        } else {
            SyncStatus::Unknown
        }
    }

    /// The number under which the status is stored.
    pub fn as_u8(self) -> (r: u8)
        ensures
            r == self.code(),
    {
        match self {
            SyncStatus::Unknown => 0,
            SyncStatus::New => 1,
            SyncStatus::Normal => 2,
        }
    }
}

/// The kind of a record in the mirror.
#[derive(Clone, Copy, Debug, PartialEq, Eq, Structural)]
pub enum SyncedBookmarkKind {
    Bookmark,
    Query,
    Folder,
    Livemark,
    Separator,
}

impl SyncedBookmarkKind {
    /// The 8-bit tag under which the kind is stored in the mirror.
    pub open spec fn code(self) -> u8 {
        match self {
            SyncedBookmarkKind::Bookmark => 1,
            SyncedBookmarkKind::Query => 2,
            SyncedBookmarkKind::Folder => 3,
            SyncedBookmarkKind::Livemark => 4,
            SyncedBookmarkKind::Separator => 5,
        }
    }

    /// The kind stored under `v`, if there is one.
    pub fn from_u8(v: u8) -> (r: Option<SyncedBookmarkKind>)
        ensures
            r matches Some(k) ==> k.code() == v,
            r is None <==> !(1 <= v <= 5),
    {
        if v == 1 {
            Some(SyncedBookmarkKind::Bookmark)
        } else if v == 2 {
            Some(SyncedBookmarkKind::Query)
        } else if v == 3 {
            Some(SyncedBookmarkKind::Folder)
        } else if v == 4 {
            Some(SyncedBookmarkKind::Livemark)
        } else if v == 5 {
            Some(SyncedBookmarkKind::Separator)
        } else {
            None
        }
    }

    /// The 8-bit tag under which the kind is stored in the mirror.
    pub fn as_u8(self) -> (r: u8)
        ensures
            r == self.code(),
    {
        match self {
            SyncedBookmarkKind::Bookmark => 1,
            SyncedBookmarkKind::Query => 2,
            SyncedBookmarkKind::Folder => 3,
            SyncedBookmarkKind::Livemark => 4,
            SyncedBookmarkKind::Separator => 5,
        }
    }

    /// The kind that a local item of type `typ` is synced as. A bookmark
    /// whose URL has the `place:` scheme is a query.
    pub open spec fn of_local(typ: BookmarkType, is_query_url: bool) -> SyncedBookmarkKind {
        match typ {
            BookmarkType::Bookmark => if is_query_url {
                SyncedBookmarkKind::Query
            } else {
                SyncedBookmarkKind::Bookmark
            },
            BookmarkType::Folder => SyncedBookmarkKind::Folder,
            BookmarkType::Separator => SyncedBookmarkKind::Separator,
        }
    }

    /// The kind that a local item of type `typ` is synced as.
    pub fn from_local(typ: BookmarkType, is_query_url: bool) -> (r: SyncedBookmarkKind)
        ensures
            r == Self::of_local(typ, is_query_url),
    {
        match typ {
            BookmarkType::Bookmark => if is_query_url {
                SyncedBookmarkKind::Query
            } else {
                SyncedBookmarkKind::Bookmark
            },
            BookmarkType::Folder => SyncedBookmarkKind::Folder,
            BookmarkType::Separator => SyncedBookmarkKind::Separator,
        }
    }

    /// The local type as which a record of this kind is stored. Livemarks
    /// have none: they are never applied.
    pub open spec fn local_type(self) -> Option<BookmarkType> {
        match self {
            SyncedBookmarkKind::Bookmark | SyncedBookmarkKind::Query => Some(
                BookmarkType::Bookmark,
            ),
            SyncedBookmarkKind::Folder => Some(BookmarkType::Folder),
            SyncedBookmarkKind::Separator => Some(BookmarkType::Separator),
            SyncedBookmarkKind::Livemark => None,
        }
    }

    /// The local type as which a record of this kind is stored.
    pub fn to_local_type(self) -> (r: Option<BookmarkType>)
        ensures
            r == self.local_type(),
    {
        match self {
            SyncedBookmarkKind::Bookmark | SyncedBookmarkKind::Query => Some(
                BookmarkType::Bookmark,
            ),
            SyncedBookmarkKind::Folder => Some(BookmarkType::Folder),
            SyncedBookmarkKind::Separator => Some(BookmarkType::Separator),
            SyncedBookmarkKind::Livemark => None,
        }
    }
}

/// What staging made of an incoming record.
#[derive(Clone, Copy, Debug, PartialEq, Eq, Structural)]
pub enum SyncedBookmarkValidity {
    /// Every required field is well formed.
    Valid,
    /// The record was repaired while staging; the cleaned form goes back up.
    Reupload,
    /// The record cannot be used and is to be replaced or deleted.
    Replace,
}

impl SyncedBookmarkValidity {
    /// The number under which the validity is stored.
    pub open spec fn code(self) -> u8 {
        match self {
            SyncedBookmarkValidity::Valid => 1,
            SyncedBookmarkValidity::Reupload => 2,
            SyncedBookmarkValidity::Replace => 3,
        }
    }

    /// The validity stored under `v`, if there is one.
    pub fn from_u8(v: u8) -> (r: Option<SyncedBookmarkValidity>)
        ensures
            r matches Some(k) ==> k.code() == v,
            r is None <==> !(1 <= v <= 3),
    {
        if v == 1 {
            Some(SyncedBookmarkValidity::Valid)
        } else if v == 2 {
            Some(SyncedBookmarkValidity::Reupload)
        } else if v == 3 {
            Some(SyncedBookmarkValidity::Replace)
        } else {
            None
        }
    }

    /// The number under which the validity is stored.
    pub fn as_u8(self) -> (r: u8)
        ensures
            r == self.code(),
    {
        match self {
            SyncedBookmarkValidity::Valid => 1,
            SyncedBookmarkValidity::Reupload => 2,
            SyncedBookmarkValidity::Replace => 3,
        }
    }
}

/// What a connection to the store is opened for.
#[derive(Clone, Copy, Debug, PartialEq, Eq, Structural)]
pub enum ConnectionType {
    ReadOnly,
    ReadWrite,
    Sync,
}

/// A local time, in milliseconds since the epoch.
#[derive(Clone, Copy, Debug, PartialEq, Eq, Structural)]
pub struct Timestamp(pub u64);

impl Timestamp {
    pub fn as_millis(self) -> (r: u64)
        ensures
            r == self.0,
    {
        self.0
    }

    /// The time as a signed number of milliseconds; times beyond the range
    /// read as the latest time.
    pub open spec fn millis(self) -> i64 {
        if self.0 <= i64::MAX as u64 {
            self.0 as i64
        } else {
            i64::MAX
        }
    }

    /// The time as a signed number of milliseconds.
    pub fn as_millis_i64(self) -> (r: i64)
        ensures
            r == self.millis(),
    {
        if self.0 <= 9_223_372_036_854_775_807u64 {
            self.0 as i64
        } else {
            i64::MAX
        }
    }
}

/// A time on the server, in milliseconds since the epoch.
#[derive(Clone, Copy, Debug, PartialEq, Eq, Structural)]
pub struct ServerTimestamp(pub i64);

impl ServerTimestamp {
    pub fn as_millis(self) -> (r: i64)
        ensures
            r == self.0,
    {
        self.0
    }
}

} // verus!
