//! The merger: it reads the local tree and the mirror, has them merged, and
//! applies what the merge gives.

use vstd::prelude::*;
use crate::db::{find_local, find_synced, find_url, local_index, synced_index, url_of_place};
use crate::error::{Corruption, ErrorKind, MergeError};
use crate::guid::{has_query_scheme, is_query_url, is_root, root_guid};
use crate::local_tree::{
    find_parent, lemma_local_tree_order, level_of, local_tree_keys, local_tree_order, parent_index,
    tree_key,
};
use crate::order::SortKey;
use crate::rows::{
    LocalItem, LocalItemModel, Place, PlaceModel, StructureRow, StructureRowModel, SyncedItem,
    SyncedItemModel, TombstoneModel,
};
use crate::store::BookmarksStore;
use crate::telemetry::{with_problem, ProblemModel, Validation};
use crate::text::{string_or_empty, text_or_empty};
use crate::tree::{
    guid_from_str, item_model, merge_error_kind, merger_error_kind, TreeItem, TreeItemModel,
};
use crate::types::{
    BookmarkType, ServerTimestamp, SyncStatus, SyncedBookmarkKind, SyncedBookmarkValidity,
    Timestamp,
};

verus! {

/// The milliseconds from `earlier` to `later`: nothing where the clock ran
/// backwards, and the largest number where the time does not fit.
pub open spec fn age_between(later: i64, earlier: i64) -> i64 {
    if later < earlier {
        0
    } else if later - earlier > i64::MAX {
        i64::MAX
    } else {
        (later - earlier) as i64
    }
}

/// The milliseconds from `earlier` to `later`.
pub fn age_millis(later: i64, earlier: i64) -> (r: i64)
    ensures
        r == age_between(later, earlier),
        r >= 0,
{
    if later < earlier {
        0
    } else {
        let wide: i128 = later as i128 - earlier as i128;
        if wide > i64::MAX as i128 {
            i64::MAX
        } else {
            wide as i64
        }
    }
}

/// The merger's kind for a kind.
pub fn to_dogear_kind(kind: SyncedBookmarkKind) -> (r: dogear::Kind)
    ensures
        crate::tree::kind_model(r) == kind,
{
    match kind {
        SyncedBookmarkKind::Bookmark => dogear::Kind::Bookmark,
        SyncedBookmarkKind::Query => dogear::Kind::Query,
        SyncedBookmarkKind::Folder => dogear::Kind::Folder,
        SyncedBookmarkKind::Livemark => dogear::Kind::Livemark,
        SyncedBookmarkKind::Separator => dogear::Kind::Separator,
    }
}

/// The merger's validity for a validity.
pub fn to_dogear_validity(validity: SyncedBookmarkValidity) -> (r: dogear::Validity)
    ensures
        crate::tree::validity_model(r) == validity,
{
    match validity {
        SyncedBookmarkValidity::Valid => dogear::Validity::Valid,
        SyncedBookmarkValidity::Reupload => dogear::Validity::Reupload,
        SyncedBookmarkValidity::Replace => dogear::Validity::Replace,
    }
}

/// The merger's item for an item.
pub fn to_dogear_item(item: &TreeItem) -> (r: dogear::Item)
    ensures
        item_model(r) == item.deep_view(),
{
    dogear::Item {
        guid: guid_from_str(item.guid.as_str()),
        kind: to_dogear_kind(item.kind),
        age: item.age,
        needs_merge: item.needs_merge,
        validity: to_dogear_validity(item.validity),
    }
}

/// The error of the sync for the kind of an error of the merger: a merge
/// that was aborted counts as interrupted, and a cycle in a tree means that
/// the store is corrupt.
pub open spec fn error_of(kind: Option<MergeError>) -> ErrorKind {
    match kind {
        None => ErrorKind::Interrupted,
        Some(MergeError::Cycle) => ErrorKind::Corruption(Corruption::Cycle),
        Some(kind) => ErrorKind::Merge(kind),
    }
}

/// The error of the sync for the kind of an error of the merger.
pub fn error_for(kind: Option<MergeError>) -> (r: ErrorKind)
    ensures
        r == error_of(kind),
        r is Interrupted || r is Corruption || r is Merge,
{
    match kind {
        None => ErrorKind::Interrupted,
        Some(MergeError::Cycle) => ErrorKind::Corruption(Corruption::Cycle),
        Some(kind) => ErrorKind::Merge(kind),
    }
}

/// The error of the sync for an error of the merger: interrupted where the
/// merge was aborted, corruption where the builder found a cycle, and else
/// the kind of the merger's error.
pub fn to_error(error: &dogear::Error) -> (r: ErrorKind)
    ensures
        r == error_of(merger_error_kind(*error)),
        r is Interrupted || r is Corruption || r is Merge,
{
    error_for(merge_error_kind(error))
}

/// The kinds of problems that the report of a sync names, in its order.
pub open spec fn validation_of(counts: dogear::ProblemCounts) -> Seq<ProblemModel> {
    with_problem(
        with_problem(
            with_problem(
                with_problem(
                    with_problem(
                        with_problem(
                            with_problem(Seq::empty(), "orphans"@, counts.orphans),
                            "misparentedRoots"@,
                            counts.misparented_roots,
                        ),
                        "multipleParents"@,
                        counts.multiple_parents_by_children,
                    ),
                    "missingParents"@,
                    counts.missing_parent_guids,
                ),
                "nonFolderParents"@,
                counts.non_folder_parent_guids,
            ),
            "parentChildDisagreements"@,
            counts.parent_child_disagreements,
        ),
        "missingChildren"@,
        counts.missing_children,
    )
}

/// Records what the builder found wrong with the structure of the server's
/// tree: each kind of problem that some item has, with the number of items.
pub fn record_telemetry_event(counts: &dogear::ProblemCounts) -> (r: Validation)
    ensures
        r.problems.deep_view() == validation_of(*counts),
{
    let mut validation = Validation::new();
    validation.problem("orphans", counts.orphans);
    validation.problem("misparentedRoots", counts.misparented_roots);
    validation.problem("multipleParents", counts.multiple_parents_by_children);
    validation.problem("missingParents", counts.missing_parent_guids);
    validation.problem("nonFolderParents", counts.non_folder_parent_guids);
    validation.problem("parentChildDisagreements", counts.parent_child_disagreements);
    validation.problem("missingChildren", counts.missing_children);
    validation
}

/// The merger.
#[derive(Debug)]
pub struct Merger {
    /// The server's time of the changeset that is merged.
    pub remote_time: ServerTimestamp,
    /// The local time of the merge.
    pub local_time: Timestamp,
    /// Whether someone else sees to it that the merge is applied as a whole.
    /// The store in memory applies it as a whole in any case.
    pub external_transaction: bool,
    /// Whether the merge reports on the structure of the server's tree.
    pub reports_validation: bool,
}

/// The local item `b` as the merger sees it at the local time `now`: it
/// needs a merge if it has a change that the server has not confirmed, and
/// a bookmark with a `place:` URL is a query.
pub open spec fn local_tree_item(b: LocalItemModel, places: Seq<PlaceModel>, now: i64) -> TreeItemModel {
    TreeItemModel {
        guid: b.guid,
        kind: SyncedBookmarkKind::of_local(
            b.typ,
            match url_of_place(places, b.place_id) {
                Some(u) => is_query_url(u),
                None => false,
            },
        ),
        age: age_between(now, b.last_modified),
        needs_merge: b.sync_change_counter > 0,
        validity: SyncedBookmarkValidity::Valid,
    }
}

/// The mirror's row `v` as the merger sees it at the server's time `now`.
pub open spec fn remote_tree_item(v: SyncedItemModel, now: i64) -> TreeItemModel {
    TreeItemModel {
        guid: v.guid,
        kind: v.kind,
        age: age_between(now, v.server_modified),
        needs_merge: v.needs_merge,
        validity: v.validity,
    }
}

impl Merger {
    /// A merger for a changeset of the server's time `remote_time`, at the
    /// local time `local_time`.
    pub fn new(remote_time: ServerTimestamp, local_time: Timestamp) -> (r: Self)
        ensures
            r.remote_time == remote_time,
            r.local_time == local_time,
            !r.external_transaction,
            !r.reports_validation,
    {
        Merger { remote_time, local_time, external_transaction: false, reports_validation: false }
    }

    /// A merger that reports on the structure of the server's tree.
    pub fn with_telemetry(remote_time: ServerTimestamp, local_time: Timestamp) -> (r: Self)
        ensures
            r.remote_time == remote_time,
            r.local_time == local_time,
            !r.external_transaction,
            r.reports_validation,
    {
        Merger { remote_time, local_time, external_transaction: false, reports_validation: true }
    }

    /// Says whether someone else sees to it that the merge is applied as a
    /// whole.
    pub fn set_external_transaction(&mut self, v: bool)
        ensures
            final(self).external_transaction == v,
            final(self).remote_time == old(self).remote_time,
            final(self).local_time == old(self).local_time,
            final(self).reports_validation == old(self).reports_validation,
    {
        self.external_transaction = v;
    }

    /// Creates a local tree item from a local item.
    pub fn local_row_to_item(&self, row: &LocalItem, places: &Vec<Place>) -> (r: TreeItem)
        ensures
            r.deep_view() == local_tree_item(
                row.deep_view(),
                places.deep_view(),
                self.local_time.millis(),
            ),
    {
        let is_query = match find_url(places, row.place_id) {
            Some(u) => has_query_scheme(u.as_str()),
            None => false,
        };
        TreeItem {
            guid: row.guid.clone(),
            kind: SyncedBookmarkKind::from_local(row.typ, is_query),
            age: age_millis(self.local_time.as_millis_i64(), row.last_modified),
            needs_merge: row.sync_change_counter > 0,
            validity: SyncedBookmarkValidity::Valid,
        }
    }

    /// Creates a remote tree item from a row of the mirror.
    pub fn remote_row_to_item(&self, row: &SyncedItem) -> (r: TreeItem)
        ensures
            r.deep_view() == remote_tree_item(row.deep_view(), self.remote_time.0),
    {
        TreeItem {
            guid: row.guid.clone(),
            kind: row.kind,
            age: age_millis(self.remote_time.0, row.server_modified),
            needs_merge: row.needs_merge,
            validity: row.validity,
        }
    }
}

/// An item of the local tree below the root, with the guid of its parent.
#[derive(Debug)]
pub struct LocalTreeRow {
    pub item: TreeItem,
    pub parent_guid: String,
}

/// What a `LocalTreeRow` says.
pub ghost struct LocalTreeRowModel {
    pub item: TreeItemModel,
    pub parent_guid: Seq<char>,
}

impl DeepView for LocalTreeRow {
    type V = LocalTreeRowModel;

    open spec fn deep_view(&self) -> LocalTreeRowModel {
        LocalTreeRowModel { item: self.item.deep_view(), parent_guid: self.parent_guid@ }
    }
}

/// Whether the local tree has its synthetic root, and only one.
pub open spec fn has_one_local_root(items: Seq<LocalItemModel>) -> bool {
    let order = local_tree_order(items);
    &&& order.len() > 0
    &&& order[0].major == 0
    &&& forall|j: int| 1 <= j < order.len() ==> (#[trigger] order[j]).major > 0
}

/// The item of the local tree with the key `k`, with the guid of its parent.
pub open spec fn local_tree_row(
    items: Seq<LocalItemModel>,
    places: Seq<PlaceModel>,
    now: i64,
    k: SortKey,
) -> LocalTreeRowModel {
    LocalTreeRowModel {
        item: local_tree_item(items[k.index as int], places, now),
        parent_guid: match parent_index(items, k.index as int) {
            Some(p) => items[p].guid,
            None => Seq::empty(),
        },
    }
}

/// The items of the local tree below the root, in the tree's order.
pub open spec fn local_tree_rows(items: Seq<LocalItemModel>, places: Seq<PlaceModel>, now: i64) -> Seq<
    LocalTreeRowModel,
> {
    local_tree_order(items).drop_first().map_values(
        |k: SortKey| local_tree_row(items, places, now, k),
    )
}

/// The items of the local tree, the root first, as the merger sees them.
pub open spec fn local_tree_items(items: Seq<LocalItemModel>, places: Seq<PlaceModel>, now: i64) -> Seq<
    TreeItemModel,
> {
    local_tree_order(items).map_values(
        |k: SortKey| local_tree_item(items[k.index as int], places, now),
    )
}

/// The first `n` of the guids `guids`, as a set.
pub open spec fn guid_set(guids: Seq<Seq<char>>, n: int) -> Set<Seq<char>>
    decreases n,
{
    if n <= 0 {
        Set::empty()
    } else {
        guid_set(guids, n - 1).insert(guids[n - 1])
    }
}

/// The guids of the local deletions that the server has yet to hear of.
pub open spec fn local_deletions(deleted: Seq<TombstoneModel>) -> Seq<Seq<char>> {
    deleted.map_values(|d: TombstoneModel| d.guid)
}

/// An item in the tree that is not at level 0 has a parent.
proof fn lemma_below_root_has_parent(items: Seq<LocalItemModel>, i: int)
    requires
        0 <= i < items.len(),
        level_of(items, i) matches Some(d) && d > 0,
    ensures
        parent_index(items, i) is Some,
        items[i].guid != root_guid(),
{
}

/// An item in the tree at level 0 is a synthetic root.
proof fn lemma_level_zero_is_root(items: Seq<LocalItemModel>, i: int)
    requires
        0 <= i < items.len(),
        level_of(items, i) == Some(0int),
    ensures
        items[i].guid == root_guid(),
{
    if items[i].guid != root_guid() {
        let fuel = crate::local_tree::search_depth(items);
        if fuel > 0 {
            match parent_index(items, i) {
                Some(p) => {
                    crate::local_tree::lemma_depth_bound(items, p, (fuel - 1) as nat);
                },
                None => {},
            }
        }
    }
}

impl Merger {
    /// The synthetic root of the local tree and the items below it, in the
    /// tree's order: level by level, within a level folder by folder, and
    /// within a folder by position.
    pub fn local_tree_rows(&self, items: &Vec<LocalItem>, places: &Vec<Place>) -> (r: Result<
        (TreeItem, Vec<LocalTreeRow>),
        ErrorKind,
    >)
        ensures
            !has_one_local_root(items.deep_view()) ==> r == Err::<
                (TreeItem, Vec<LocalTreeRow>),
                ErrorKind,
            >(ErrorKind::Corruption(Corruption::InvalidLocalRoots)),
            has_one_local_root(items.deep_view()) ==> (r matches Ok(found) && found.0.deep_view()
                == local_tree_items(items.deep_view(), places.deep_view(), self.local_time.millis())[0]
                && found.0.guid@ == root_guid() && found.1.deep_view() == local_tree_rows(
                items.deep_view(),
                places.deep_view(),
                self.local_time.millis(),
            )),
    {
        let ghost all = items.deep_view();
        let ghost now = self.local_time.millis();
        let order = local_tree_keys(items);
        proof {
            assert(all.len() == items.len());
            lemma_local_tree_order(all);
        }
        if order.len() == 0 || order[0].major != 0 {
            return Err(ErrorKind::Corruption(Corruption::InvalidLocalRoots));
        }
        proof {
            let k = order@[0];
            assert(k == tree_key(all, k.index as int));
            crate::local_tree::lemma_depth_bound(
                all,
                k.index as int,
                crate::local_tree::search_depth(all),
            );
            lemma_level_zero_is_root(all, k.index as int);
        }
        let root = self.local_row_to_item(&items[order[0].index], places);
        let mut rows: Vec<LocalTreeRow> = Vec::new();
        let mut n: usize = 1;
        while n < order.len()
            invariant
                1 <= n <= order.len(),
                all == items.deep_view(),
                now == self.local_time.millis(),
                order@ == local_tree_order(all),
                forall|j: int|
                    0 <= j < order.len() ==> {
                        let k = #[trigger] order@[j];
                        &&& 0 <= k.index < all.len()
                        &&& k == tree_key(all, k.index as int)
                        &&& level_of(all, k.index as int) is Some
                    },
                forall|j: int| 1 <= j < n ==> (#[trigger] order@[j]).major > 0,
                rows.len() == n - 1,
                forall|j: int|
                    0 <= j < n - 1 ==> (#[trigger] rows[j]).deep_view() == local_tree_row(
                        all,
                        places.deep_view(),
                        now,
                        order@[j + 1],
                    ),
            decreases order.len() - n,
        {
            let k = order[n];
            assert(order@[n as int] == k);
            if k.major == 0 {
                return Err(ErrorKind::Corruption(Corruption::InvalidLocalRoots));
            }
            proof {
                crate::local_tree::lemma_depth_bound(
                    all,
                    k.index as int,
                    crate::local_tree::search_depth(all),
                );
                lemma_below_root_has_parent(all, k.index as int);
            }
            let parent = find_parent(items, k.index);
            let parent_guid = match parent {
                Some(p) => items[p].guid.clone(),
                None => String::new(),
            };
            rows.push(
                LocalTreeRow { item: self.local_row_to_item(&items[k.index], places), parent_guid },
            );
            n += 1;
        }
        assert(rows.deep_view() =~= local_tree_rows(all, places.deep_view(), now));
        Ok((root, rows))
    }
}

/// What an item holds, as far as the merger compares items to find out
/// whether two of them are the same: a bookmark's title and URL, a folder's
/// title, a separator's position.
#[derive(Debug)]
pub enum ItemContent {
    Bookmark { title: String, url_href: String },
    Folder { title: String },
    Separator { position: i64 },
}

/// What an `ItemContent` says, with every string as its text.
pub ghost enum ItemContentModel {
    Bookmark { title: Seq<char>, url_href: Seq<char> },
    Folder { title: Seq<char> },
    Separator { position: i64 },
}

impl DeepView for ItemContent {
    type V = ItemContentModel;

    open spec fn deep_view(&self) -> ItemContentModel {
        match self {
            ItemContent::Bookmark { title, url_href } => ItemContentModel::Bookmark {
                title: title@,
                url_href: url_href@,
            },
            ItemContent::Folder { title } => ItemContentModel::Folder { title: title@ },
            ItemContent::Separator { position } => ItemContentModel::Separator {
                position: *position,
            },
        }
    }
}

/// The content of a new item.
#[derive(Debug)]
pub struct NewContent {
    pub guid: String,
    pub content: ItemContent,
}

/// What a `NewContent` says.
pub ghost struct NewContentModel {
    pub guid: Seq<char>,
    pub content: ItemContentModel,
}

impl DeepView for NewContent {
    type V = NewContentModel;

    open spec fn deep_view(&self) -> NewContentModel {
        NewContentModel { guid: self.guid@, content: self.content.deep_view() }
    }
}

/// The content of the local item at `i`, if the item is new: the mirror has
/// no row for it, the server has not seen it, and it is no child of the
/// synthetic root. A bookmark without a URL has no content.
pub open spec fn new_local_content(
    items: Seq<LocalItemModel>,
    synced: Seq<SyncedItemModel>,
    places: Seq<PlaceModel>,
    i: int,
) -> Option<NewContentModel> {
    let b = items[i];
    match parent_index(items, i) {
        Some(p) => if items[p].guid != root_guid() && synced_index(synced, b.guid) is None
            && b.sync_status != SyncStatus::Normal {
            match b.typ {
                BookmarkType::Bookmark => match url_of_place(places, b.place_id) {
                    Some(url_href) => Some(
                        NewContentModel {
                            guid: b.guid,
                            content: ItemContentModel::Bookmark {
                                title: text_or_empty(b.title),
                                url_href,
                            },
                        },
                    ),
                    None => None,
                },
                BookmarkType::Folder => Some(
                    NewContentModel {
                        guid: b.guid,
                        content: ItemContentModel::Folder { title: text_or_empty(b.title) },
                    },
                ),
                BookmarkType::Separator => Some(
                    NewContentModel {
                        guid: b.guid,
                        content: ItemContentModel::Separator { position: b.position },
                    },
                ),
            }
        } else {
            None
        },
        None => None,
    }
}

/// The contents of the new items among the first `n` local items.
pub open spec fn new_local_contents(
    items: Seq<LocalItemModel>,
    synced: Seq<SyncedItemModel>,
    places: Seq<PlaceModel>,
    n: int,
) -> Seq<NewContentModel>
    decreases n,
{
    if n <= 0 {
        Seq::empty()
    } else {
        let before = new_local_contents(items, synced, places, n - 1);
        match new_local_content(items, synced, places, n - 1) {
            Some(c) => before.push(c),
            None => before,
        }
    }
}

/// The content of the item that the row at `j` lists as a child, if the
/// item is new: its row in the mirror needs a merge and is no tombstone, the
/// local tree does not have it, and it is no child of the synthetic root. A
/// bookmark without a URL has no content, and nor has a livemark.
pub open spec fn new_remote_content(
    structure: Seq<StructureRowModel>,
    synced: Seq<SyncedItemModel>,
    items: Seq<LocalItemModel>,
    places: Seq<PlaceModel>,
    j: int,
) -> Option<NewContentModel> {
    let s = structure[j];
    match synced_index(synced, s.guid) {
        Some(i) => {
            let v = synced[i];
            if !v.is_deleted && v.needs_merge && local_index(items, v.guid) is None
                && s.parent_guid != root_guid() {
                match v.kind {
                    SyncedBookmarkKind::Bookmark | SyncedBookmarkKind::Query => match url_of_place(
                        places,
                        v.place_id,
                    ) {
                        Some(url_href) => Some(
                            NewContentModel {
                                guid: v.guid,
                                content: ItemContentModel::Bookmark {
                                    title: text_or_empty(v.title),
                                    url_href,
                                },
                            },
                        ),
                        None => None,
                    },
                    SyncedBookmarkKind::Folder => Some(
                        NewContentModel {
                            guid: v.guid,
                            content: ItemContentModel::Folder { title: text_or_empty(v.title) },
                        },
                    ),
                    SyncedBookmarkKind::Separator => Some(
                        NewContentModel {
                            guid: v.guid,
                            content: ItemContentModel::Separator { position: s.position },
                        },
                    ),
                    SyncedBookmarkKind::Livemark => None,
                }
            } else {
                None
            }
        },
        None => None,
    }
}

/// The contents of the new items among the children that the first `n`
/// rows list.
pub open spec fn new_remote_contents(
    structure: Seq<StructureRowModel>,
    synced: Seq<SyncedItemModel>,
    items: Seq<LocalItemModel>,
    places: Seq<PlaceModel>,
    n: int,
) -> Seq<NewContentModel>
    decreases n,
{
    if n <= 0 {
        Seq::empty()
    } else {
        let before = new_remote_contents(structure, synced, items, places, n - 1);
        match new_remote_content(structure, synced, items, places, n - 1) {
            Some(c) => before.push(c),
            None => before,
        }
    }
}

fn local_content_at(
    items: &Vec<LocalItem>,
    synced: &Vec<SyncedItem>,
    places: &Vec<Place>,
    i: usize,
) -> (r: Option<NewContent>)
    requires
        i < items.len(),
    ensures
        r.deep_view() == new_local_content(
            items.deep_view(),
            synced.deep_view(),
            places.deep_view(),
            i as int,
        ),
{
    let b = &items[i];
    let p = match find_parent(items, i) {
        Some(p) => p,
        None => {
            return None;
        },
    };
    if is_root(items[p].guid.as_str()) || find_synced(synced, &b.guid).is_some() || b.sync_status
        == SyncStatus::Normal {
        return None;
    }
    match b.typ {
        BookmarkType::Bookmark => match find_url(places, b.place_id) {
            Some(url_href) => Some(
                NewContent {
                    guid: b.guid.clone(),
                    content: ItemContent::Bookmark { title: string_or_empty(&b.title), url_href },
                },
            ),
            None => None,
        },
        BookmarkType::Folder => Some(
            NewContent {
                guid: b.guid.clone(),
                content: ItemContent::Folder { title: string_or_empty(&b.title) },
            },
        ),
        BookmarkType::Separator => Some(
            NewContent {
                guid: b.guid.clone(),
                content: ItemContent::Separator { position: b.position },
            },
        ),
    }
}

fn remote_content_at(
    structure: &Vec<StructureRow>,
    synced: &Vec<SyncedItem>,
    items: &Vec<LocalItem>,
    places: &Vec<Place>,
    j: usize,
) -> (r: Option<NewContent>)
    requires
        j < structure.len(),
    ensures
        r.deep_view() == new_remote_content(
            structure.deep_view(),
            synced.deep_view(),
            items.deep_view(),
            places.deep_view(),
            j as int,
        ),
{
    let s = &structure[j];
    let i = match find_synced(synced, &s.guid) {
        Some(i) => i,
        None => {
            return None;
        },
    };
    let v = &synced[i];
    if v.is_deleted || !v.needs_merge || find_local(items, &v.guid).is_some() || is_root(
        s.parent_guid.as_str(),
    ) {
        return None;
    }
    match v.kind {
        SyncedBookmarkKind::Bookmark | SyncedBookmarkKind::Query => match find_url(
            places,
            v.place_id,
        ) {
            Some(url_href) => Some(
                NewContent {
                    guid: v.guid.clone(),
                    content: ItemContent::Bookmark { title: string_or_empty(&v.title), url_href },
                },
            ),
            None => None,
        },
        SyncedBookmarkKind::Folder => Some(
            NewContent {
                guid: v.guid.clone(),
                content: ItemContent::Folder { title: string_or_empty(&v.title) },
            },
        ),
        SyncedBookmarkKind::Separator => Some(
            NewContent {
                guid: v.guid.clone(),
                content: ItemContent::Separator { position: s.position },
            },
        ),
        SyncedBookmarkKind::Livemark => None,
    }
}

impl Merger {
    /// Fetches content info for all local items that are new to the
    /// server. The merger tries to match them to changed remote items with
    /// similar contents and different guids.
    pub fn fetch_new_local_contents(&self, store: &BookmarksStore) -> (r: Result<
        Vec<NewContent>,
        ErrorKind,
    >)
        ensures
            store.interruptee.interrupted ==> r == Err::<Vec<NewContent>, ErrorKind>(
                ErrorKind::Interrupted,
            ),
            !store.interruptee.interrupted ==> (r matches Ok(contents) && contents.deep_view()
                == new_local_contents(
                store.db@.bookmarks,
                store.db@.synced,
                store.db@.places,
                store.db@.bookmarks.len() as int,
            )),
    {
        if store.interruptee.was_interrupted() {
            return Err(ErrorKind::Interrupted);
        }
        let mut contents: Vec<NewContent> = Vec::new();
        assert(contents.deep_view() =~= Seq::empty());
        let mut n: usize = 0;
        while n < store.db.bookmarks.len()
            invariant
                n <= store.db.bookmarks.len(),
                contents.deep_view() == new_local_contents(
                    store.db@.bookmarks,
                    store.db@.synced,
                    store.db@.places,
                    n as int,
                ),
            decreases store.db.bookmarks.len() - n,
        {
            let ghost before = contents.deep_view();
            match local_content_at(&store.db.bookmarks, &store.db.synced, &store.db.places, n) {
                Some(c) => {
                    contents.push(c);
                    assert(contents.deep_view() =~= before.push(c.deep_view()));
                },
                None => {},
            }
            n += 1;
        }
        Ok(contents)
    }

    /// Fetches content info for all items of the mirror that changed since
    /// the last merge and that the local tree does not have.
    pub fn fetch_new_remote_contents(&self, store: &BookmarksStore) -> (r: Result<
        Vec<NewContent>,
        ErrorKind,
    >)
        ensures
            store.interruptee.interrupted ==> r == Err::<Vec<NewContent>, ErrorKind>(
                ErrorKind::Interrupted,
            ),
            !store.interruptee.interrupted ==> (r matches Ok(contents) && contents.deep_view()
                == new_remote_contents(
                store.db@.synced_structure,
                store.db@.synced,
                store.db@.bookmarks,
                store.db@.places,
                store.db@.synced_structure.len() as int,
            )),
    {
        if store.interruptee.was_interrupted() {
            return Err(ErrorKind::Interrupted);
        }
        let mut contents: Vec<NewContent> = Vec::new();
        assert(contents.deep_view() =~= Seq::empty());
        let mut n: usize = 0;
        while n < store.db.synced_structure.len()
            invariant
                n <= store.db.synced_structure.len(),
                contents.deep_view() == new_remote_contents(
                    store.db@.synced_structure,
                    store.db@.synced,
                    store.db@.bookmarks,
                    store.db@.places,
                    n as int,
                ),
            decreases store.db.synced_structure.len() - n,
        {
            let ghost before = contents.deep_view();
            match remote_content_at(
                &store.db.synced_structure,
                &store.db.synced,
                &store.db.bookmarks,
                &store.db.places,
                n,
            ) {
                Some(c) => {
                    contents.push(c);
                    assert(contents.deep_view() =~= before.push(c.deep_view()));
                },
                None => {},
            }
            n += 1;
        }
        Ok(contents)
    }
}

} // verus!
