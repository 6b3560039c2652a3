//! Staging incoming records: each record becomes a row of the mirror, a
//! folder's record also the list of the folder's children.

use vstd::prelude::*;
use crate::db::{find_place, place_index, DbModel, PlacesDb};
use crate::error::ErrorKind;
use crate::finalize::{lists_under_other, tags_other_item, upsert_synced, with_synced_row};
use crate::guid::{guid_of_record_id, has_query_scheme, is_query_url, BookmarkRecordId};
use crate::href::{parse_href, parsed_href};
use crate::record::{BookmarkItemRecord, IncomingChangeset, RecordModel};
use crate::rows::{
    Place, PlaceModel, StructureRow, StructureRowModel, SyncedItem, SyncedItemModel, SyncedTag,
    SyncedTagModel,
};
use crate::seqs::{lemma_filter_step, lemma_take_all};
use crate::store::BookmarksStore;
use crate::telemetry::{one_more, EngineIncoming};
use crate::text::{clone_opt_string, clone_strings};
use crate::types::{ServerTimestamp, SyncedBookmarkKind, SyncedBookmarkValidity};

verus! {

/// What an incoming record says of its item, whatever the record's kind.
#[derive(Debug)]
pub struct IncomingItem {
    pub guid: String,
    pub parent_guid: Option<String>,
    pub kind: SyncedBookmarkKind,
    pub title: Option<String>,
    /// The URL as the record spells it.
    pub url: Option<String>,
    pub keyword: Option<String>,
    pub date_added: i64,
    pub tags: Vec<String>,
    /// The record ids of the children, for a folder.
    pub children: Vec<String>,
    pub is_deleted: bool,
}

/// What an `IncomingItem` says, with every string as its text.
pub ghost struct IncomingItemModel {
    pub guid: Seq<char>,
    pub parent_guid: Option<Seq<char>>,
    pub kind: SyncedBookmarkKind,
    pub title: Option<Seq<char>>,
    pub url: Option<Seq<char>>,
    pub keyword: Option<Seq<char>>,
    pub date_added: i64,
    pub tags: Seq<Seq<char>>,
    pub children: Seq<Seq<char>>,
    pub is_deleted: bool,
}

impl DeepView for IncomingItem {
    type V = IncomingItemModel;

    open spec fn deep_view(&self) -> IncomingItemModel {
        IncomingItemModel {
            guid: self.guid@,
            parent_guid: self.parent_guid.deep_view(),
            kind: self.kind,
            title: self.title.deep_view(),
            url: self.url.deep_view(),
            keyword: self.keyword.deep_view(),
            date_added: self.date_added,
            tags: self.tags.deep_view(),
            children: self.children.deep_view(),
            is_deleted: self.is_deleted,
        }
    }
}

/// A title as the mirror keeps it: an empty one is no title.
pub open spec fn kept_title(title: Option<Seq<char>>) -> Option<Seq<char>> {
    match title {
        Some(t) => if t.len() == 0 {
            None
        } else {
            Some(t)
        },
        None => None,
    }
}

/// The guid that an optional record id stands for.
pub open spec fn guid_of_parent(id: Option<Seq<char>>) -> Option<Seq<char>> {
    match id {
        Some(id) => Some(guid_of_record_id(id)),
        None => None,
    }
}

/// A date of creation as the mirror keeps it: an absent one is 0.
pub open spec fn kept_date(date: Option<i64>) -> i64 {
    match date {
        Some(t) => t,
        None => 0,
    }
}

impl RecordModel {
    /// What the record says of its item. A record of an unknown kind says
    /// nothing.
    pub open spec fn item(self) -> Option<IncomingItemModel> {
        match self {
            RecordModel::Tombstone { record_id } => Some(
                IncomingItemModel {
                    guid: guid_of_record_id(record_id),
                    parent_guid: None,
                    kind: SyncedBookmarkKind::Bookmark,
                    title: None,
                    url: None,
                    keyword: None,
                    date_added: 0,
                    tags: Seq::empty(),
                    children: Seq::empty(),
                    is_deleted: true,
                },
            ),
            RecordModel::Bookmark(b) => Some(
                IncomingItemModel {
                    guid: guid_of_record_id(b.record_id),
                    parent_guid: guid_of_parent(b.parent_record_id),
                    kind: SyncedBookmarkKind::Bookmark,
                    title: kept_title(b.title),
                    url: b.url,
                    keyword: b.keyword,
                    date_added: kept_date(b.date_added),
                    tags: b.tags,
                    children: Seq::empty(),
                    is_deleted: false,
                },
            ),
            RecordModel::Query(q) => Some(
                IncomingItemModel {
                    guid: guid_of_record_id(q.record_id),
                    parent_guid: guid_of_parent(q.parent_record_id),
                    kind: SyncedBookmarkKind::Query,
                    title: kept_title(q.title),
                    url: q.url,
                    keyword: None,
                    date_added: kept_date(q.date_added),
                    tags: Seq::empty(),
                    children: Seq::empty(),
                    is_deleted: false,
                },
            ),
            RecordModel::Folder(f) => Some(
                IncomingItemModel {
                    guid: guid_of_record_id(f.record_id),
                    parent_guid: guid_of_parent(f.parent_record_id),
                    kind: SyncedBookmarkKind::Folder,
                    title: kept_title(f.title),
                    url: None,
                    keyword: None,
                    date_added: kept_date(f.date_added),
                    tags: Seq::empty(),
                    children: f.children,
                    is_deleted: false,
                },
            ),
            RecordModel::Livemark(l) => Some(
                IncomingItemModel {
                    guid: guid_of_record_id(l.record_id),
                    parent_guid: guid_of_parent(l.parent_record_id),
                    kind: SyncedBookmarkKind::Livemark,
                    title: kept_title(l.title),
                    url: None,
                    keyword: None,
                    date_added: kept_date(l.date_added),
                    tags: Seq::empty(),
                    children: Seq::empty(),
                    is_deleted: false,
                },
            ),
            RecordModel::Separator(s) => Some(
                IncomingItemModel {
                    guid: guid_of_record_id(s.record_id),
                    parent_guid: guid_of_parent(s.parent_record_id),
                    kind: SyncedBookmarkKind::Separator,
                    title: None,
                    url: None,
                    keyword: None,
                    date_added: kept_date(s.date_added),
                    tags: Seq::empty(),
                    children: Seq::empty(),
                    is_deleted: false,
                },
            ),
            RecordModel::Unknown { record_id } => None,
        }
    }

    /// The record's URL as `parsed_href` reads it, where the record has one
    /// that can be read.
    pub open spec fn href(self) -> Option<Seq<char>> {
        match self.item() {
            Some(item) => match item.url {
                Some(u) => parsed_href(u),
                None => None,
            },
            None => None,
        }
    }

    /// Whether the record is malformed: it names no item, or it lists more
    /// children than there are positions.
    pub open spec fn is_malformed(self) -> bool {
        self.record_id().len() == 0 || (self matches RecordModel::Folder(f) && f.children.len()
            > i64::MAX)
    }
}

fn kept_title_of(title: &Option<String>) -> (r: Option<String>)
    ensures
        r.deep_view() == kept_title(title.deep_view()),
{
    match title {
        Some(t) => if t.as_str().unicode_len() == 0 {
            None
        } else {
            Some(t.clone())
        },
        None => None,
    }
}

fn guid_of_parent_id(id: &Option<String>) -> (r: Option<String>)
    ensures
        r.deep_view() == guid_of_parent(id.deep_view()),
{
    match id {
        Some(id) => Some(BookmarkRecordId::from_payload_id(id.as_str())),
        None => None,
    }
}

fn kept_date_of(date: Option<i64>) -> (r: i64)
    ensures
        r == kept_date(date),
{
    match date {
        Some(t) => t,
        None => 0,
    }
}

impl BookmarkItemRecord {
    /// What the record says of its item.
    pub fn item(&self) -> (r: Option<IncomingItem>)
        ensures
            r.deep_view() == self.deep_view().item(),
    {
        match self {
            BookmarkItemRecord::Tombstone { record_id } => {
                let tags: Vec<String> = Vec::new();
                let children: Vec<String> = Vec::new();
                assert(tags.deep_view() =~= Seq::empty());
                assert(children.deep_view() =~= Seq::empty());
                Some(
                    IncomingItem {
                        guid: BookmarkRecordId::from_payload_id(record_id.as_str()),
                        parent_guid: None,
                        kind: SyncedBookmarkKind::Bookmark,
                        title: None,
                        url: None,
                        keyword: None,
                        date_added: 0,
                        tags,
                        children,
                        is_deleted: true,
                    },
                )
            },
            BookmarkItemRecord::Bookmark(b) => {
                let children: Vec<String> = Vec::new();
                assert(children.deep_view() =~= Seq::empty());
                Some(
                    IncomingItem {
                        guid: BookmarkRecordId::from_payload_id(b.record_id.as_str()),
                        parent_guid: guid_of_parent_id(&b.parent_record_id),
                        kind: SyncedBookmarkKind::Bookmark,
                        title: kept_title_of(&b.title),
                        url: clone_opt_string(&b.url),
                        keyword: clone_opt_string(&b.keyword),
                        date_added: kept_date_of(b.date_added),
                        tags: clone_strings(&b.tags),
                        children,
                        is_deleted: false,
                    },
                )
            },
            BookmarkItemRecord::Query(q) => {
                let tags: Vec<String> = Vec::new();
                let children: Vec<String> = Vec::new();
                assert(tags.deep_view() =~= Seq::empty());
                assert(children.deep_view() =~= Seq::empty());
                Some(
                    IncomingItem {
                        guid: BookmarkRecordId::from_payload_id(q.record_id.as_str()),
                        parent_guid: guid_of_parent_id(&q.parent_record_id),
                        kind: SyncedBookmarkKind::Query,
                        title: kept_title_of(&q.title),
                        url: clone_opt_string(&q.url),
                        keyword: None,
                        date_added: kept_date_of(q.date_added),
                        tags,
                        children,
                        is_deleted: false,
                    },
                )
            },
            BookmarkItemRecord::Folder(f) => {
                let tags: Vec<String> = Vec::new();
                assert(tags.deep_view() =~= Seq::empty());
                Some(
                    IncomingItem {
                        guid: BookmarkRecordId::from_payload_id(f.record_id.as_str()),
                        parent_guid: guid_of_parent_id(&f.parent_record_id),
                        kind: SyncedBookmarkKind::Folder,
                        title: kept_title_of(&f.title),
                        url: None,
                        keyword: None,
                        date_added: kept_date_of(f.date_added),
                        tags,
                        children: clone_strings(&f.children),
                        is_deleted: false,
                    },
                )
            },
            BookmarkItemRecord::Livemark(l) => {
                let tags: Vec<String> = Vec::new();
                let children: Vec<String> = Vec::new();
                assert(tags.deep_view() =~= Seq::empty());
                assert(children.deep_view() =~= Seq::empty());
                Some(
                    IncomingItem {
                        guid: BookmarkRecordId::from_payload_id(l.record_id.as_str()),
                        parent_guid: guid_of_parent_id(&l.parent_record_id),
                        kind: SyncedBookmarkKind::Livemark,
                        title: kept_title_of(&l.title),
                        url: None,
                        keyword: None,
                        date_added: kept_date_of(l.date_added),
                        tags,
                        children,
                        is_deleted: false,
                    },
                )
            },
            BookmarkItemRecord::Separator(s) => {
                let tags: Vec<String> = Vec::new();
                let children: Vec<String> = Vec::new();
                assert(tags.deep_view() =~= Seq::empty());
                assert(children.deep_view() =~= Seq::empty());
                Some(
                    IncomingItem {
                        guid: BookmarkRecordId::from_payload_id(s.record_id.as_str()),
                        parent_guid: guid_of_parent_id(&s.parent_record_id),
                        kind: SyncedBookmarkKind::Separator,
                        title: None,
                        url: None,
                        keyword: None,
                        date_added: kept_date_of(s.date_added),
                        tags,
                        children,
                        is_deleted: false,
                    },
                )
            },
            BookmarkItemRecord::Unknown { .. } => None,
        }
    }

    /// Whether the record is malformed.
    pub fn is_malformed(&self) -> (r: bool)
        ensures
            r == self.deep_view().is_malformed(),
    {
        if self.id().as_str().unicode_len() == 0 {
            return true;
        }
        match self {
            BookmarkItemRecord::Folder(f) => {
                assert(f.children.deep_view().len() == f.children.len());
                f.children.len() as u64 > 9_223_372_036_854_775_807u64
            },
            _ => false,
        }
    }
}

/// The largest key among the places, or 0 where there is none above.
pub open spec fn max_place_id(places: Seq<PlaceModel>) -> int
    decreases places.len(),
{
    if places.len() == 0 {
        0
    } else {
        let rest = max_place_id(places.drop_last());
        if places.last().id > rest {
            places.last().id as int
        } else {
            rest
        }
    }
}

/// The largest key among the places.
pub fn largest_place_id(places: &Vec<Place>) -> (r: i64)
    ensures
        r == max_place_id(places.deep_view()),
        r >= 0,
{
    let ghost all = places.deep_view();
    let mut max: i64 = 0;
    let mut i: usize = 0;
    while i < places.len()
        invariant
            i <= places.len(),
            all == places.deep_view(),
            max == max_place_id(all.take(i as int)),
            max >= 0,
        decreases places.len() - i,
    {
        assert(all.take(i + 1).drop_last() =~= all.take(i as int));
        if places[i].id > max {
            max = places[i].id;
        }
        i += 1;
    }
    proof {
        lemma_take_all(all);
    }
    max
}

/// The places with one for the URL `href`, added with the next key where
/// there was none. A new place has no frecency yet; a query never gets one.
pub open spec fn with_place(places: Seq<PlaceModel>, href: Seq<char>) -> Seq<PlaceModel> {
    if place_index(places, href) is None {
        places.push(
            PlaceModel {
                id: (max_place_id(places) + 1) as i64,
                url: href,
                frecency: if is_query_url(href) {
                    0
                } else {
                    -1i32
                },
            },
        )
    } else {
        places
    }
}

/// The key of the place for the URL `href`.
pub open spec fn place_id_of(places: Seq<PlaceModel>, href: Option<Seq<char>>) -> Option<i64> {
    match href {
        Some(h) => match place_index(places, h) {
            Some(i) => Some(places[i].id),
            None => None,
        },
        None => None,
    }
}

/// The rows that list the first `n` of a folder's children, those without
/// an id left out, at the positions 0, 1 and so on.
pub open spec fn child_rows(children: Seq<Seq<char>>, guid: Seq<char>, n: int) -> Seq<
    StructureRowModel,
>
    decreases n,
{
    if n <= 0 {
        Seq::empty()
    } else {
        let before = child_rows(children, guid, n - 1);
        if children[n - 1].len() > 0 {
            before.push(
                StructureRowModel {
                    guid: guid_of_record_id(children[n - 1]),
                    parent_guid: guid,
                    position: before.len() as i64,
                },
            )
        } else {
            before
        }
    }
}

/// Whether one of the children has no id.
pub open spec fn has_nameless_child(children: Seq<Seq<char>>) -> bool {
    exists|i: int| 0 <= i < children.len() && (#[trigger] children[i]).len() == 0
}

/// What staging makes of an item: a bookmark or a query is valid if its
/// URL can be read, and is to be replaced if not; a folder that lists a
/// child without an id is repaired and goes back up; all else is valid.
pub open spec fn validity_of(item: IncomingItemModel, href: Option<Seq<char>>) -> SyncedBookmarkValidity {
    match item.kind {
        SyncedBookmarkKind::Bookmark | SyncedBookmarkKind::Query => if item.is_deleted || href
            is Some {
            SyncedBookmarkValidity::Valid
        } else {
            SyncedBookmarkValidity::Replace
        },
        SyncedBookmarkKind::Folder => if has_nameless_child(item.children) {
            SyncedBookmarkValidity::Reupload
        } else {
            SyncedBookmarkValidity::Valid
        },
        _ => SyncedBookmarkValidity::Valid,
    }
}

/// The mirror's row for an incoming item.
pub open spec fn incoming_row(
    item: IncomingItemModel,
    href: Option<Seq<char>>,
    place_id: Option<i64>,
    server_modified: i64,
) -> SyncedItemModel {
    SyncedItemModel {
        guid: item.guid,
        parent_guid: item.parent_guid,
        kind: item.kind,
        title: item.title,
        place_id,
        keyword: item.keyword,
        date_added: item.date_added,
        server_modified,
        needs_merge: true,
        is_deleted: item.is_deleted,
        validity: validity_of(item, href),
    }
}

impl DbModel {
    /// The store with an incoming item staged. `href` is the item's URL as
    /// read, if it has one that can be read. The item's row takes the place
    /// of an older row for the same guid, and so do its tags and the list of
    /// its children.
    pub open spec fn with_incoming(
        self,
        item: IncomingItemModel,
        href: Option<Seq<char>>,
        server_modified: i64,
    ) -> DbModel {
        let places = match href {
            Some(h) => with_place(self.places, h),
            None => self.places,
        };
        DbModel {
            places,
            synced: with_synced_row(
                self.synced,
                incoming_row(item, href, place_id_of(places, href), server_modified),
            ),
            synced_structure: self.synced_structure.filter(lists_under_other(item.guid))
                + child_rows(item.children, item.guid, item.children.len() as int),
            synced_tags: self.synced_tags.filter(tags_other_item(item.guid))
                + item.tags.map_values(|t: Seq<char>| SyncedTagModel { guid: item.guid, tag: t }),
            ..self
        }
    }

    /// Whether the places have a key left for one more.
    pub open spec fn has_room_for_place(self) -> bool {
        max_place_id(self.places) < i64::MAX
    }

    /// The store with an incoming record staged: a record of an unknown
    /// kind leaves no trace, and else the record's item is staged with its
    /// URL as `parsed_href` reads it.
    pub open spec fn apply_record(self, record: RecordModel, server_modified: i64) -> DbModel {
        match record.item() {
            Some(item) => self.with_incoming(item, record.href(), server_modified),
            None => self,
        }
    }

    /// The store with the first `n` of the incoming records staged, but for
    /// the malformed ones.
    pub open spec fn apply_records(self, changes: Seq<(RecordModel, i64)>, n: int) -> DbModel
        decreases n,
    {
        if n <= 0 {
            self
        } else {
            let before = self.apply_records(changes, n - 1);
            if changes[n - 1].0.is_malformed() {
                before
            } else {
                before.apply_record(changes[n - 1].0, changes[n - 1].1)
            }
        }
    }

    /// Whether the places have keys left for one new place per incoming
    /// record.
    pub open spec fn has_room_for_places(self, changes: Seq<(RecordModel, i64)>) -> bool {
        max_place_id(self.places) + changes.len() <= i64::MAX
    }
}

fn add_place(places: &mut Vec<Place>, href: &String)
    requires
        max_place_id(old(places).deep_view()) < i64::MAX,
    ensures
        final(places).deep_view() == with_place(old(places).deep_view(), href@),
{
    if find_place(places, href).is_none() {
        let id = largest_place_id(places) + 1;
        let frecency: i32 = if has_query_scheme(href.as_str()) {
            0
        } else {
            -1
        };
        places.push(Place { id, url: href.clone(), frecency });
        assert(places.deep_view() =~= old(places).deep_view().push(
            PlaceModel { id, url: href@, frecency },
        ));
    }
}

fn find_place_id(places: &Vec<Place>, href: &Option<String>) -> (r: Option<i64>)
    ensures
        r == place_id_of(places.deep_view(), href.deep_view()),
{
    match href {
        Some(h) => match find_place(places, h) {
            Some(i) => Some(places[i].id),
            None => None,
        },
        None => None,
    }
}

fn any_nameless(children: &Vec<String>) -> (r: bool)
    ensures
        r == has_nameless_child(children.deep_view()),
{
    let mut i: usize = 0;
    while i < children.len()
        invariant
            i <= children.len(),
            forall|j: int| 0 <= j < i ==> (#[trigger] children.deep_view()[j]).len() != 0,
        decreases children.len() - i,
    {
        if children[i].as_str().unicode_len() == 0 {
            assert(children.deep_view()[i as int].len() == 0);
            return true;
        }
        i += 1;
    }
    false
}

fn validity_for(item: &IncomingItem, href: &Option<String>) -> (r: SyncedBookmarkValidity)
    ensures
        r == validity_of(item.deep_view(), href.deep_view()),
{
    match item.kind {
        SyncedBookmarkKind::Bookmark | SyncedBookmarkKind::Query => if item.is_deleted
            || href.is_some() {
            SyncedBookmarkValidity::Valid
        } else {
            SyncedBookmarkValidity::Replace
        },
        SyncedBookmarkKind::Folder => if any_nameless(&item.children) {
            SyncedBookmarkValidity::Reupload
        } else {
            SyncedBookmarkValidity::Valid
        },
        _ => SyncedBookmarkValidity::Valid,
    }
}

fn replace_listed_children(
    structure: &mut Vec<StructureRow>,
    children: &Vec<String>,
    guid: &String,
)
    requires
        children.len() <= i64::MAX,
    ensures
        final(structure).deep_view() == old(structure).deep_view().filter(
            lists_under_other(guid@),
        ) + child_rows(children.deep_view(), guid@, children.len() as int),
{
    let ghost all = structure.deep_view();
    let ghost ids = children.deep_view();
    let mut out: Vec<StructureRow> = Vec::new();
    assert(out.deep_view() =~= Seq::empty());
    let mut n: usize = 0;
    while n < structure.len()
        invariant
            n <= structure.len(),
            all == structure.deep_view(),
            out.deep_view() == all.take(n as int).filter(lists_under_other(guid@)),
        decreases structure.len() - n,
    {
        proof {
            lemma_filter_step(all, lists_under_other(guid@), n as int);
        }
        let ghost before = out.deep_view();
        if structure[n].parent_guid != *guid {
            out.push(structure[n].duplicate());
            assert(out.deep_view() =~= before.push(all[n as int]));
        }
        n += 1;
    }
    proof {
        lemma_take_all(all);
    }
    let ghost kept = out.deep_view();
    assert(out.deep_view() =~= kept + Seq::<StructureRowModel>::empty());
    let mut position: i64 = 0;
    let mut m: usize = 0;
    while m < children.len()
        invariant
            m <= children.len(),
            children.len() <= i64::MAX,
            ids == children.deep_view(),
            0 <= position <= m,
            position == child_rows(ids, guid@, m as int).len(),
            out.deep_view() == kept + child_rows(ids, guid@, m as int),
        decreases children.len() - m,
    {
        let ghost before = out.deep_view();
        if children[m].as_str().unicode_len() > 0 {
            out.push(
                StructureRow {
                    guid: BookmarkRecordId::from_payload_id(children[m].as_str()),
                    parent_guid: guid.clone(),
                    position,
                },
            );
            assert(out.deep_view() =~= before.push(
                StructureRowModel {
                    guid: guid_of_record_id(ids[m as int]),
                    parent_guid: guid@,
                    position,
                },
            ));
            position += 1;
        }
        assert(out.deep_view() =~= kept + child_rows(ids, guid@, m + 1));
        m += 1;
    }
    *structure = out;
}

fn replace_incoming_tags(tags: &mut Vec<SyncedTag>, new_tags: &Vec<String>, guid: &String)
    ensures
        final(tags).deep_view() == old(tags).deep_view().filter(tags_other_item(guid@))
            + new_tags.deep_view().map_values(
            |t: Seq<char>| SyncedTagModel { guid: guid@, tag: t },
        ),
{
    let ghost all = tags.deep_view();
    let ghost fresh = new_tags.deep_view();
    let mut out: Vec<SyncedTag> = Vec::new();
    assert(out.deep_view() =~= Seq::empty());
    let mut n: usize = 0;
    while n < tags.len()
        invariant
            n <= tags.len(),
            all == tags.deep_view(),
            out.deep_view() == all.take(n as int).filter(tags_other_item(guid@)),
        decreases tags.len() - n,
    {
        proof {
            lemma_filter_step(all, tags_other_item(guid@), n as int);
        }
        let ghost before = out.deep_view();
        if tags[n].guid != *guid {
            out.push(tags[n].duplicate());
            assert(out.deep_view() =~= before.push(all[n as int]));
        }
        n += 1;
    }
    proof {
        lemma_take_all(all);
    }
    let ghost kept = out.deep_view();
    assert(out.deep_view() =~= kept + fresh.take(0).map_values(
        |t: Seq<char>| SyncedTagModel { guid: guid@, tag: t },
    ));
    let mut m: usize = 0;
    while m < new_tags.len()
        invariant
            m <= new_tags.len(),
            fresh == new_tags.deep_view(),
            out.deep_view() == kept + fresh.take(m as int).map_values(
                |t: Seq<char>| SyncedTagModel { guid: guid@, tag: t },
            ),
        decreases new_tags.len() - m,
    {
        let ghost before = out.deep_view();
        out.push(SyncedTag { guid: guid.clone(), tag: new_tags[m].clone() });
        assert(out.deep_view() =~= before.push(
            SyncedTagModel { guid: guid@, tag: fresh[m as int] },
        ));
        assert(fresh.take(m + 1) =~= fresh.take(m as int).push(fresh[m as int]));
        m += 1;
    }
    proof {
        lemma_take_all(fresh);
    }
    *tags = out;
}

/// Stages one incoming item, whose URL was read as `href`.
///
/// Nothing changes where the item has a URL that the store does not know
/// and the places have no key left.
pub fn store_incoming_item(
    db: &mut PlacesDb,
    item: &IncomingItem,
    href: Option<String>,
    server_modified: ServerTimestamp,
) -> (r: Result<(), ErrorKind>)
    requires
        item.children.len() <= i64::MAX,
    ensures
        href is Some && !old(db)@.has_room_for_place() ==> r == Err::<(), ErrorKind>(ErrorKind::Storage)
            && final(db)@ == old(db)@,
        href is None || old(db)@.has_room_for_place() ==> r is Ok && final(db)@ == old(
            db,
        )@.with_incoming(item.deep_view(), href.deep_view(), server_modified.0),
{
    if let Some(h) = &href {
        if largest_place_id(&db.places) == i64::MAX {
            return Err(ErrorKind::Storage);
        }
        add_place(&mut db.places, h);
    }
    let place_id = find_place_id(&db.places, &href);
    let row = SyncedItem {
        guid: item.guid.clone(),
        parent_guid: clone_opt_string(&item.parent_guid),
        kind: item.kind,
        title: clone_opt_string(&item.title),
        place_id,
        keyword: clone_opt_string(&item.keyword),
        date_added: item.date_added,
        server_modified: server_modified.0,
        needs_merge: true,
        is_deleted: item.is_deleted,
        validity: validity_for(item, &href),
    };
    upsert_synced(&mut db.synced, row);
    replace_listed_children(&mut db.synced_structure, &item.children, &item.guid);
    replace_incoming_tags(&mut db.synced_tags, &item.tags, &item.guid);
    Ok(())
}

/// Stages one incoming record: the record's item becomes a row of the
/// mirror that needs a merge. A malformed record is refused, and a record
/// of an unknown kind is passed over in silence.
pub fn apply_payload(
    db: &mut PlacesDb,
    record: &BookmarkItemRecord,
    server_modified: ServerTimestamp,
) -> (r: Result<(), ErrorKind>)
    ensures
        record.deep_view().is_malformed() ==> r == Err::<(), ErrorKind>(ErrorKind::InvalidPayload)
            && final(db)@ == old(db)@,
        !record.deep_view().is_malformed() && record.deep_view().href() is Some && !old(
            db,
        )@.has_room_for_place() ==> r == Err::<(), ErrorKind>(ErrorKind::Storage) && final(db)@ == old(
            db,
        )@,
        !record.deep_view().is_malformed() && (record.deep_view().href() is None || old(
            db,
        )@.has_room_for_place()) ==> r is Ok && final(db)@ == old(db)@.apply_record(
            record.deep_view(),
            server_modified.0,
        ),
{
    if record.is_malformed() {
        return Err(ErrorKind::InvalidPayload);
    }
    match record.item() {
        Some(item) => {
            let href = match &item.url {
                Some(u) => parse_href(u.as_str()),
                None => None,
            };
            store_incoming_item(db, &item, href, server_modified)
        },
        None => Ok(()),
    }
}

/// The report after the first `n` incoming records: each is counted as
/// staged, or as failed if it is malformed.
pub open spec fn tallied(report: EngineIncoming, changes: Seq<(RecordModel, i64)>, n: int) -> EngineIncoming
    decreases n,
{
    if n <= 0 {
        report
    } else {
        let before = tallied(report, changes, n - 1);
        if changes[n - 1].0.is_malformed() {
            EngineIncoming { failed: one_more(before.failed), ..before }
        } else {
            EngineIncoming { applied: one_more(before.applied), ..before }
        }
    }
}

/// Staging records leaves the local tree and its tombstones as they were.
pub proof fn lemma_staging_keeps_the_local_tree(
    db: DbModel,
    changes: Seq<(RecordModel, i64)>,
    n: int,
)
    ensures
        db.apply_records(changes, n).bookmarks == db.bookmarks,
        db.apply_records(changes, n).deleted == db.deleted,
    decreases n,
{
    if n > 0 {
        lemma_staging_keeps_the_local_tree(db, changes, n - 1);
    }
}

/// Staging a record makes at most one new place, with the next key.
pub proof fn lemma_apply_records_ids(db: DbModel, changes: Seq<(RecordModel, i64)>, n: int)
    requires
        0 <= n <= changes.len(),
        db.has_room_for_places(changes),
    ensures
        max_place_id(db.apply_records(changes, n).places) <= max_place_id(db.places) + n,
    decreases n,
{
    if n > 0 {
        lemma_apply_records_ids(db, changes, n - 1);
        let before = db.apply_records(changes, n - 1);
        let after = db.apply_records(changes, n);
        if after.places != before.places {
            assert(after.places.drop_last() =~= before.places);
        }
    }
}

impl BookmarksStore {
    /// Stages all incoming records in the mirror, and reports how many were
    /// staged and how many were malformed and left out. The result is the
    /// server's time of the changeset.
    ///
    /// Nothing changes where the store was interrupted, or where the places
    /// have no keys left for the URLs of the records.
    pub fn stage_incoming(
        &mut self,
        inbound: &IncomingChangeset,
        incoming_telemetry: &mut EngineIncoming,
    ) -> (r: Result<ServerTimestamp, ErrorKind>)
        ensures
            final(self).interruptee == old(self).interruptee,
            old(self).interruptee.interrupted ==> r == Err::<ServerTimestamp, ErrorKind>(
                ErrorKind::Interrupted,
            ) && final(self).db@ == old(self).db@,
            !old(self).interruptee.interrupted && !old(self).db@.has_room_for_places(
                inbound.changes.deep_view(),
            ) ==> r == Err::<ServerTimestamp, ErrorKind>(ErrorKind::Storage) && final(self).db@ == old(
                self,
            ).db@,
            !old(self).interruptee.interrupted && old(self).db@.has_room_for_places(
                inbound.changes.deep_view(),
            ) ==> r == Ok::<ServerTimestamp, ErrorKind>(inbound.timestamp) && final(self).db@ == old(
                self,
            ).db@.apply_records(inbound.changes.deep_view(), inbound.changes.len() as int),
            r is Err ==> *final(incoming_telemetry) == *old(incoming_telemetry),
            r is Ok ==> *final(incoming_telemetry) == tallied(
                *old(incoming_telemetry),
                inbound.changes.deep_view(),
                inbound.changes.len() as int,
            ),
            old(self).db@.has_unique_keys() ==> final(self).db@.has_unique_keys(),
    {
        proof {
            if self.db@.has_unique_keys() && self.db@.has_room_for_places(
                inbound.changes.deep_view(),
            ) {
                crate::keys::lemma_apply_records(
                    self.db@,
                    inbound.changes.deep_view(),
                    inbound.changes.len() as int,
                );
            }
        }
        if self.interruptee.was_interrupted() {
            return Err(ErrorKind::Interrupted);
        }
        let largest = largest_place_id(&self.db.places);
        if inbound.changes.len() as u64 > (i64::MAX - largest) as u64 {
            return Err(ErrorKind::Storage);
        }
        let ghost start = self.db@;
        let ghost changes = inbound.changes.deep_view();
        let mut n: usize = 0;
        while n < inbound.changes.len()
            invariant
                n <= inbound.changes.len(),
                changes == inbound.changes.deep_view(),
                start.has_room_for_places(changes),
                self.interruptee == old(self).interruptee,
                self.db@ == start.apply_records(changes, n as int),
                *incoming_telemetry == tallied(*old(incoming_telemetry), changes, n as int),
            decreases inbound.changes.len() - n,
        {
            proof {
                lemma_apply_records_ids(start, changes, n as int);
            }
            let change = &inbound.changes[n];
            assert(change.deep_view() == changes[n as int]);
            match apply_payload(&mut self.db, &change.record, change.server_modified) {
                Ok(()) => {
                    incoming_telemetry.applied();
                },
                Err(_) => {
                    incoming_telemetry.failed();
                },
            }
            n += 1;
        }
        Ok(inbound.timestamp)
    }
}

} // verus!
