//! One merge: the two trees are built and merged, and what the merge gives
//! is applied to the local tree and staged for upload.

use vstd::prelude::*;
use crate::db::DbModel;
use crate::error::{Corruption, ErrorKind, MergeError};
use crate::guid::{lemma_root_guids_distinct, root_guid, unfiled_guid, BookmarkRootGuid};
use crate::merger::{
    error_of, guid_set, has_one_local_root, local_deletions, local_tree_items, local_tree_rows,
    new_local_contents, new_remote_contents, record_telemetry_event, remote_tree_item,
    to_dogear_item, to_error, validation_of, ItemContent, LocalTreeRow, LocalTreeRowModel, Merger,
    NewContent,
};
use crate::remote_tree::{
    find_remote_root, remote_deletions, remote_edges, remote_root_index, remote_tombstones,
    remote_tree_edges, remote_tree_rows, RemoteEdge, RemoteEdgeModel, RemoteTreeRow,
    RemoteTreeRowModel,
};
use crate::rows::{MergedRow, MergedRowModel, RemovalRow, RemovalRowModel, Tombstone};
use crate::soundness::local_tree_is_sound;
use crate::store::BookmarksStore;
use crate::telemetry::{Engine, ProblemModel, Validation};
use crate::text::clone_opt_string;
use crate::tree::{
    accepted_deletions, build_tree_by_guids, build_tree_by_structure, built_by_guids,
    built_by_structure, deletion_model, descendant_model, failure_by_guids, failure_by_structure,
    guid_from_str, hangs_below_root, is_rooted, item_model, keyed_model, listed_model, maybe_parented_model, merge_failure,
    merge_input, merged_nodes, note_deleted, parented_model, problem_counts, problems_by_guids,
    run_merge, subsumes_local, subsumes_remote, tree_deleted, tree_entries, tree_items, tree_model,
    tree_problems, DeclaredModel, DeletionParts, DescendantModel, DescendantParts, EntryModel,
    KeyedContent, Listed, ListedModel, MaybeParented, MergeInput, Parented, TreeItemModel,
    TreeModel,
};

verus! {

/// The items of the mirror's tree, the root first, as the merger sees them
/// at the server's time `now`; nothing where the mirror has no live row for
/// the synthetic root.
pub open spec fn remote_tree_items(db: DbModel, now: i64) -> Option<Seq<TreeItemModel>> {
    match remote_root_index(db.synced) {
        Some(i) => Some(
            seq![remote_tree_item(db.synced[i], now)] + remote_tree_rows(
                db.synced,
                now,
            ).map_values(|row: RemoteTreeRowModel| row.item),
        ),
        None => None,
    }
}

/// Whether some entry holds an item with the guid `guid` and hangs below
/// the first entry, the root.
pub open spec fn holds_below_root(entries: Seq<EntryModel>, guid: Seq<char>) -> bool {
    exists|k: int|
        0 <= k < entries.len() && (#[trigger] entries[k]).item.guid == guid && hangs_below_root(
            entries,
            k,
        )
}

/// What a row of the local tree declares to the builder: the item, below
/// its parent.
pub open spec fn declared_local(row: LocalTreeRowModel) -> DeclaredModel {
    DeclaredModel { item: row.item, parent: Some(row.parent_guid) }
}

/// What a row of the mirror declares to the builder: the item, with the
/// parent that it names.
pub open spec fn declared_remote(row: RemoteTreeRowModel) -> DeclaredModel {
    DeclaredModel { item: row.item, parent: row.parent_guid }
}

/// What a listed child declares to the builder.
pub open spec fn listed_of(edge: RemoteEdgeModel) -> ListedModel {
    ListedModel { child: edge.child_guid, parent: edge.parent_guid }
}

/// The merged row that a merged node stands for: the remote side is taken
/// where the merger says to apply it, and the node goes up where the merger
/// has a reason to upload it.
pub open spec fn row_of(node: DescendantModel) -> MergedRowModel {
    MergedRowModel {
        local_guid: node.local_guid,
        remote_guid: node.remote_guid,
        merged_guid: node.merged_guid,
        merged_parent_guid: node.merged_parent_guid,
        level: node.level as i64,
        position: node.position as i64,
        use_remote: node.should_apply,
        should_upload: node.should_upload,
    }
}

/// Whether the level and the position of a merged node are numbers that a
/// row holds.
pub open spec fn fits_a_row(node: DescendantModel) -> bool {
    node.level <= i64::MAX && node.position <= i64::MAX
}

impl DbModel {
    /// The local tree as the builder makes it at the local time `now`, with
    /// the local deletions noted.
    pub open spec fn local_tree(self, now: i64) -> TreeModel {
        TreeModel {
            entries: built_by_structure(
                local_tree_items(self.bookmarks, self.places, now)[0],
                local_tree_rows(self.bookmarks, self.places, now).map_values(
                    |row: LocalTreeRowModel| declared_local(row),
                ),
            ),
            deleted: guid_set(local_deletions(self.deleted), self.deleted.len() as int),
        }
    }

    /// The mirror's tree as the builder makes it at the server's time
    /// `now`, with the unmerged tombstones noted. Orphans go to the unfiled
    /// bookmarks.
    pub open spec fn remote_tree(self, now: i64) -> TreeModel {
        TreeModel {
            entries: built_by_guids(
                remote_tree_item(self.synced[remote_root_index(self.synced).unwrap()], now),
                unfiled_guid(),
                remote_tree_rows(self.synced, now).map_values(
                    |row: RemoteTreeRowModel| declared_remote(row),
                ),
                remote_tree_edges(self.synced_structure).map_values(
                    |edge: RemoteEdgeModel| listed_of(edge),
                ),
            ),
            deleted: guid_set(
                remote_deletions(self.synced),
                remote_deletions(self.synced).len() as int,
            ),
        }
    }

    /// Why the builder makes no local tree at the local time `now`, or
    /// nothing where it makes one.
    pub open spec fn local_tree_failure(self, now: i64) -> Option<MergeError> {
        failure_by_structure(
            local_tree_items(self.bookmarks, self.places, now)[0],
            local_tree_rows(self.bookmarks, self.places, now).map_values(
                |row: LocalTreeRowModel| declared_local(row),
            ),
        )
    }

    /// Why the builder makes no tree of the mirror at the server's time
    /// `now`, or nothing where it makes one.
    pub open spec fn remote_tree_failure(self, now: i64) -> Option<MergeError> {
        failure_by_guids(
            remote_tree_item(self.synced[remote_root_index(self.synced).unwrap()], now),
            unfiled_guid(),
            remote_tree_rows(self.synced, now).map_values(
                |row: RemoteTreeRowModel| declared_remote(row),
            ),
            remote_tree_edges(self.synced_structure).map_values(
                |edge: RemoteEdgeModel| listed_of(edge),
            ),
        )
    }

    /// The problems that the builder finds in the structure of the mirror's
    /// tree, as the report of a merge names them.
    pub open spec fn remote_tree_problems(self, now: i64) -> Seq<ProblemModel> {
        validation_of(
            problems_by_guids(
                remote_tree_item(self.synced[remote_root_index(self.synced).unwrap()], now),
                unfiled_guid(),
                remote_tree_rows(self.synced, now).map_values(
                    |row: RemoteTreeRowModel| declared_remote(row),
                ),
                remote_tree_edges(self.synced_structure).map_values(
                    |edge: RemoteEdgeModel| listed_of(edge),
                ),
            ),
        )
    }

    /// What the merger goes by: the local tree and the mirror's tree, and
    /// the contents of the items that are new on either side.
    pub open spec fn merger_input(self, remote_time: i64, local_time: i64) -> MergeInput {
        MergeInput {
            local: self.local_tree(local_time),
            new_local: new_local_contents(
                self.bookmarks,
                self.synced,
                self.places,
                self.bookmarks.len() as int,
            ),
            remote: self.remote_tree(remote_time),
            new_remote: new_remote_contents(
                self.synced_structure,
                self.synced,
                self.bookmarks,
                self.places,
                self.synced_structure.len() as int,
            ),
        }
    }

    /// The nodes of the tree that the merger makes of the local tree and of
    /// the mirror's tree.
    pub open spec fn merged_nodes(self, remote_time: i64, local_time: i64) -> Seq<DescendantModel> {
        merged_nodes(self.merger_input(remote_time, local_time))
    }

    /// The rows of the merged tree.
    pub open spec fn merged_rows(self, remote_time: i64, local_time: i64) -> Seq<MergedRowModel> {
        self.merged_nodes(remote_time, local_time).map_values(|node: DescendantModel| row_of(node))
    }

    /// The deletions that the merger accepts.
    pub open spec fn merged_deletions(self, remote_time: i64, local_time: i64) -> Set<
        RemovalRowModel,
    > {
        accepted_deletions(self.merger_input(remote_time, local_time))
    }

    /// Whether every node of the merged tree has a level and a position that
    /// a row holds.
    pub open spec fn merged_nodes_fit(self, remote_time: i64, local_time: i64) -> bool {
        forall|j: int|
            0 <= j < self.merged_nodes(remote_time, local_time).len() ==> fits_a_row(
                #[trigger] self.merged_nodes(remote_time, local_time)[j],
            )
    }
}

fn tombstone_guids(deleted: &Vec<Tombstone>) -> (guids: Vec<String>)
    ensures
        guids.deep_view() == local_deletions(deleted.deep_view()),
{
    let mut guids: Vec<String> = Vec::new();
    let mut n: usize = 0;
    while n < deleted.len()
        invariant
            n <= deleted.len(),
            guids.len() == n,
            forall|j: int| 0 <= j < n ==> (#[trigger] guids[j])@ == deleted[j].guid@,
        decreases deleted.len() - n,
    {
        guids.push(deleted[n].guid.clone());
        n += 1;
    }
    assert(guids.deep_view() =~= local_deletions(deleted.deep_view()));
    guids
}

fn note_all_deleted(tree: &mut dogear::Tree, guids: &Vec<String>)
    requires
        tree_deleted(*old(tree)) == Set::<Seq<char>>::empty(),
    ensures
        tree_entries(*final(tree)) == tree_entries(*old(tree)),
        tree_problems(*final(tree)) == tree_problems(*old(tree)),
        tree_deleted(*final(tree)) == guid_set(guids.deep_view(), guids.len() as int),
{
    let mut n: usize = 0;
    while n < guids.len()
        invariant
            n <= guids.len(),
            tree_entries(*tree) == tree_entries(*old(tree)),
            tree_problems(*tree) == tree_problems(*old(tree)),
            tree_deleted(*tree) == guid_set(guids.deep_view(), n as int),
        decreases guids.len() - n,
    {
        note_deleted(tree, guid_from_str(guids[n].as_str()));
        n += 1;
    }
}

fn to_parented(rows: &Vec<LocalTreeRow>) -> (out: Vec<Parented>)
    ensures
        out@.map_values(|row: Parented| parented_model(row)) == rows.deep_view().map_values(
            |row: LocalTreeRowModel| declared_local(row),
        ),
        out@.map_values(|row: Parented| item_model(row.item)) == rows.deep_view().map_values(
            |row: LocalTreeRowModel| row.item,
        ),
{
    let mut out: Vec<Parented> = Vec::new();
    let mut n: usize = 0;
    while n < rows.len()
        invariant
            n <= rows.len(),
            out.len() == n,
            forall|j: int|
                0 <= j < n ==> parented_model(#[trigger] out[j]) == declared_local(
                    rows[j].deep_view(),
                ),
        decreases rows.len() - n,
    {
        out.push(
            Parented {
                item: to_dogear_item(&rows[n].item),
                parent: guid_from_str(rows[n].parent_guid.as_str()),
            },
        );
        n += 1;
    }
    assert(out@.map_values(|row: Parented| parented_model(row)) =~= rows.deep_view().map_values(
        |row: LocalTreeRowModel| declared_local(row),
    ));
    assert(out@.map_values(|row: Parented| item_model(row.item)) =~= rows.deep_view().map_values(
        |row: LocalTreeRowModel| row.item,
    ));
    out
}

fn to_maybe_parented(rows: &Vec<RemoteTreeRow>) -> (out: Vec<MaybeParented>)
    ensures
        out@.map_values(|row: MaybeParented| maybe_parented_model(row))
            == rows.deep_view().map_values(|row: RemoteTreeRowModel| declared_remote(row)),
        out@.map_values(|row: MaybeParented| item_model(row.item)) == rows.deep_view().map_values(
            |row: RemoteTreeRowModel| row.item,
        ),
{
    let mut out: Vec<MaybeParented> = Vec::new();
    let mut n: usize = 0;
    while n < rows.len()
        invariant
            n <= rows.len(),
            out.len() == n,
            forall|j: int|
                0 <= j < n ==> maybe_parented_model(#[trigger] out[j]) == declared_remote(
                    rows[j].deep_view(),
                ),
        decreases rows.len() - n,
    {
        out.push(
            MaybeParented {
                item: to_dogear_item(&rows[n].item),
                parent: match &rows[n].parent_guid {
                    Some(guid) => Some(guid_from_str(guid.as_str())),
                    None => None,
                },
            },
        );
        n += 1;
    }
    assert(out@.map_values(|row: MaybeParented| maybe_parented_model(row))
        =~= rows.deep_view().map_values(|row: RemoteTreeRowModel| declared_remote(row)));
    assert(out@.map_values(|row: MaybeParented| item_model(row.item))
        =~= rows.deep_view().map_values(|row: RemoteTreeRowModel| row.item));
    out
}

fn to_listed(edges: &Vec<RemoteEdge>) -> (out: Vec<Listed>)
    ensures
        out@.map_values(|edge: Listed| listed_model(edge)) == edges.deep_view().map_values(
            |edge: RemoteEdgeModel| listed_of(edge),
        ),
{
    let mut out: Vec<Listed> = Vec::new();
    let mut n: usize = 0;
    while n < edges.len()
        invariant
            n <= edges.len(),
            out.len() == n,
            forall|j: int|
                0 <= j < n ==> listed_model(#[trigger] out[j]) == listed_of(edges[j].deep_view()),
        decreases edges.len() - n,
    {
        out.push(
            Listed {
                child: guid_from_str(edges[n].child_guid.as_str()),
                parent: guid_from_str(edges[n].parent_guid.as_str()),
            },
        );
        n += 1;
    }
    assert(out@.map_values(|edge: Listed| listed_model(edge)) =~= edges.deep_view().map_values(
        |edge: RemoteEdgeModel| listed_of(edge),
    ));
    out
}

fn to_keyed(contents: &Vec<NewContent>) -> (out: Vec<KeyedContent>)
    ensures
        out@.map_values(|c: KeyedContent| keyed_model(c)) == contents.deep_view(),
{
    let mut out: Vec<KeyedContent> = Vec::new();
    let mut n: usize = 0;
    while n < contents.len()
        invariant
            n <= contents.len(),
            out.len() == n,
            forall|j: int| 0 <= j < n ==> keyed_model(#[trigger] out[j]) == contents[j].deep_view(),
        decreases contents.len() - n,
    {
        let content = match &contents[n].content {
            ItemContent::Bookmark { title, url_href } => dogear::Content::Bookmark {
                title: title.clone(),
                url_href: url_href.clone(),
            },
            ItemContent::Folder { title } => dogear::Content::Folder { title: title.clone() },
            ItemContent::Separator { position } => dogear::Content::Separator {
                position: *position,
            },
        };
        out.push(KeyedContent { guid: guid_from_str(contents[n].guid.as_str()), content });
        n += 1;
    }
    assert(out@.map_values(|c: KeyedContent| keyed_model(c)) =~= contents.deep_view());
    out
}

/// The merged row that a merged node stands for, or nothing where the
/// node's level or position is beyond the numbers that a row holds.
pub fn merged_row(parts: &DescendantParts) -> (row: Option<MergedRow>)
    ensures
        row is Some <==> fits_a_row(descendant_model(*parts)),
        row matches Some(r) ==> r.deep_view() == row_of(descendant_model(*parts)),
{
    if parts.level as u64 > 9_223_372_036_854_775_807u64 || parts.position as u64
        > 9_223_372_036_854_775_807u64 {
        return None;
    }
    let should_upload = match parts.upload_reason {
        dogear::UploadReason::None => false,
        _ => true,
    };
    Some(
        MergedRow {
            local_guid: clone_opt_string(&parts.local_guid),
            remote_guid: clone_opt_string(&parts.remote_guid),
            merged_guid: parts.merged_guid.clone(),
            merged_parent_guid: parts.merged_parent_guid.clone(),
            level: parts.level as i64,
            position: parts.position as i64,
            use_remote: parts.should_apply,
            should_upload,
        },
    )
}

fn merged_rows(descendants: &Vec<DescendantParts>) -> (rows: Option<Vec<MergedRow>>)
    ensures
        rows is Some <==> forall|j: int|
            0 <= j < descendants.len() ==> fits_a_row(descendant_model(#[trigger] descendants[j])),
        rows matches Some(r) ==> r.deep_view() == descendants@.map_values(
            |parts: DescendantParts| descendant_model(parts),
        ).map_values(|node: DescendantModel| row_of(node)),
{
    let mut rows: Vec<MergedRow> = Vec::new();
    let mut n: usize = 0;
    while n < descendants.len()
        invariant
            n <= descendants.len(),
            rows.len() == n,
            forall|j: int| 0 <= j < n ==> fits_a_row(descendant_model(#[trigger] descendants[j])),
            forall|j: int|
                0 <= j < n ==> (#[trigger] rows[j]).deep_view() == row_of(
                    descendant_model(descendants[j]),
                ),
        decreases descendants.len() - n,
    {
        match merged_row(&descendants[n]) {
            Some(row) => rows.push(row),
            None => {
                return None;
            },
        }
        n += 1;
    }
    assert(rows.deep_view() =~= descendants@.map_values(
        |parts: DescendantParts| descendant_model(parts),
    ).map_values(|node: DescendantModel| row_of(node)));
    Some(rows)
}

fn removal_rows(deletions: &Vec<DeletionParts>) -> (rows: Vec<RemovalRow>)
    ensures
        rows.deep_view() == deletions@.map_values(|parts: DeletionParts| deletion_model(parts)),
{
    let mut rows: Vec<RemovalRow> = Vec::new();
    let mut n: usize = 0;
    while n < deletions.len()
        invariant
            n <= deletions.len(),
            rows.len() == n,
            forall|j: int|
                0 <= j < n ==> (#[trigger] rows[j]).deep_view() == deletion_model(deletions[j]),
        decreases deletions.len() - n,
    {
        rows.push(
            RemovalRow {
                guid: deletions[n].guid.clone(),
                local_level: deletions[n].local_level,
                should_upload_tombstone: deletions[n].should_upload_tombstone,
            },
        );
        n += 1;
    }
    assert(rows.deep_view() =~= deletions@.map_values(|parts: DeletionParts| deletion_model(parts)));
    rows
}

impl DbModel {
    /// Whether a merged tree can be applied, and why not: the local tree
    /// must have keys left for the new items, and the merged tree must not
    /// leave a local tree unsound that was sound.
    pub open spec fn applies(
        self,
        rows: Seq<MergedRowModel>,
        deletions: Seq<RemovalRowModel>,
        now: i64,
    ) -> Result<(), ErrorKind> {
        if !self.has_room_for(rows) {
            Err(ErrorKind::Storage)
        } else if self.local_tree_is_sound() && !self.apply_merged(
            rows,
            deletions,
            now,
        ).local_tree_is_sound() {
            Err(ErrorKind::Merge(MergeError::MergeConflict))
        } else {
            Ok(())
        }
    }

    /// Why no local tree is built at the local time `now`, or nothing where
    /// one is built: the local tree has not exactly one synthetic root, or
    /// the builder gives up.
    pub open spec fn local_tree_error(self, now: i64) -> Option<ErrorKind> {
        if !has_one_local_root(self.bookmarks) {
            Some(ErrorKind::Corruption(Corruption::InvalidLocalRoots))
        } else {
            match self.local_tree_failure(now) {
                Some(kind) => Some(error_of(Some(kind))),
                None => None,
            }
        }
    }

    /// Why no tree of the mirror is built at the server's time `now`, or
    /// nothing where one is built: the mirror has no live row for the
    /// synthetic root, or the builder gives up.
    pub open spec fn remote_tree_error(self, now: i64) -> Option<ErrorKind> {
        if remote_root_index(self.synced) is None {
            Some(ErrorKind::Corruption(Corruption::InvalidSyncedRoots))
        } else {
            match self.remote_tree_failure(now) {
                Some(kind) => Some(error_of(Some(kind))),
                None => None,
            }
        }
    }

    /// Why a merge gives up before anything is applied, or nothing where it
    /// comes to apply the merged tree: a tree is not built, the merger gives
    /// up, the merged tree leaves out an item of the local tree or of the
    /// mirror's tree, or a node of it has a level or a position that no row
    /// holds.
    pub open spec fn merge_error(self, remote_time: i64, local_time: i64) -> Option<ErrorKind> {
        let input = self.merger_input(remote_time, local_time);
        if self.local_tree_error(local_time) is Some {
            self.local_tree_error(local_time)
        } else if self.remote_tree_error(remote_time) is Some {
            self.remote_tree_error(remote_time)
        } else if merge_failure(input) is Some {
            Some(error_of(merge_failure(input)))
        } else if !subsumes_local(input) {
            Some(ErrorKind::Merge(MergeError::UnmergedLocalItems))
        } else if !subsumes_remote(input) {
            Some(ErrorKind::Merge(MergeError::UnmergedRemoteItems))
        } else if !self.merged_nodes_fit(remote_time, local_time) {
            Some(ErrorKind::Storage)
        } else {
            None
        }
    }

    /// The problems that a merge reports: those that the builder finds in
    /// the structure of the mirror's tree, and none where the merge gives up
    /// before that tree is built.
    pub open spec fn merge_problems(self, remote_time: i64, local_time: i64) -> Seq<ProblemModel> {
        if self.local_tree_error(local_time) is Some || self.remote_tree_error(remote_time)
            is Some {
            Seq::empty()
        } else {
            self.remote_tree_problems(remote_time)
        }
    }

    /// Whether a merge that applies the accepted deletions in the order
    /// `deletions` gives `r` and leaves the store as `after`: it gives what
    /// applying the merged tree gives, and the store keeps what it held
    /// unless the merged tree was applied and staged.
    pub open spec fn merged_by(
        self,
        deletions: Seq<RemovalRowModel>,
        remote_time: i64,
        local_time: i64,
        r: Result<(), ErrorKind>,
        after: DbModel,
    ) -> bool {
        let rows = self.merged_rows(remote_time, local_time);
        &&& deletions.no_duplicates()
        &&& deletions.to_set() == self.merged_deletions(remote_time, local_time)
        &&& r == self.applies(rows, deletions, local_time)
        &&& after == if r is Ok {
            self.apply_merged(rows, deletions, local_time).staged(rows)
        } else {
            self
        }
    }

    /// Whether a merge of this store, which nothing interrupts, gives `r`
    /// and leaves the store as `after`. Where nothing has changed, nothing
    /// happens. Where the merge gives up before anything is applied, it
    /// fails for that reason and the store keeps what it held. Else it gives
    /// what applying the merged tree gives, with the accepted deletions in
    /// some order.
    pub open spec fn merges(
        self,
        remote_time: i64,
        local_time: i64,
        r: Result<(), ErrorKind>,
        after: DbModel,
    ) -> bool {
        if !self.has_changes() {
            r is Ok && after == self
        } else {
            match self.merge_error(remote_time, local_time) {
                Some(e) => r == Err::<(), ErrorKind>(e) && after == self,
                None => exists|deletions: Seq<RemovalRowModel>| #[trigger]
                    self.merged_by(deletions, remote_time, local_time, r, after),
            }
        }
    }
}

impl BookmarksStore {
    /// Whether a merged tree can be applied, and why not: the store must not
    /// be interrupted, and the merged tree must be one that its tables can
    /// take.
    pub open spec fn applies(
        self,
        rows: Seq<MergedRowModel>,
        deletions: Seq<RemovalRowModel>,
        now: i64,
    ) -> Result<(), ErrorKind> {
        if self.interruptee.interrupted {
            Err(ErrorKind::Interrupted)
        } else {
            self.db@.applies(rows, deletions, now)
        }
    }

    /// Whether a merge of this store gives `r` and leaves its tables as
    /// `after`: a store that was interrupted and in which something has
    /// changed keeps what it held, and else the merge does what it does
    /// where nothing interrupts it.
    pub open spec fn merges(
        self,
        remote_time: i64,
        local_time: i64,
        r: Result<(), ErrorKind>,
        after: DbModel,
    ) -> bool {
        if self.interruptee.interrupted && self.db@.has_changes() {
            r == Err::<(), ErrorKind>(ErrorKind::Interrupted) && after == self.db@
        } else {
            self.db@.merges(remote_time, local_time, r, after)
        }
    }

    /// The problems that a merge of this store reports, if something has
    /// changed in it: none where the store was interrupted.
    pub open spec fn merge_problems(self, remote_time: i64, local_time: i64) -> Seq<ProblemModel> {
        if self.interruptee.interrupted {
            Seq::empty()
        } else {
            self.db@.merge_problems(remote_time, local_time)
        }
    }
}

impl Merger {
    /// Builds a fully rooted, consistent tree from all local items and
    /// tombstones: the items are declared to the builder in the tree's
    /// order, each below its parent.
    pub fn fetch_local_tree(&self, store: &BookmarksStore) -> (r: Result<dogear::Tree, ErrorKind>)
        ensures
            store.interruptee.interrupted <==> r == Err::<dogear::Tree, ErrorKind>(
                ErrorKind::Interrupted,
            ),
            !store.interruptee.interrupted ==> match store.db@.local_tree_error(
                self.local_time.millis(),
            ) {
                Some(e) => r == Err::<dogear::Tree, ErrorKind>(e),
                None => r is Ok,
            },
            !store.interruptee.interrupted && !has_one_local_root(store.db@.bookmarks) <==> r
                == Err::<dogear::Tree, ErrorKind>(
                ErrorKind::Corruption(Corruption::InvalidLocalRoots),
            ),
            r matches Ok(tree) ==> tree_model(tree) == store.db@.local_tree(
                self.local_time.millis(),
            ) && tree_items(tree) == local_tree_items(
                store.db@.bookmarks,
                store.db@.places,
                self.local_time.millis(),
            ) && tree_items(tree).len() > 0 && tree_items(tree)[0].guid == root_guid(),
            r matches Ok(tree) ==> is_rooted(tree_entries(tree)),
            r matches Err(e) ==> e is Interrupted || e is Corruption || e is Merge,
    {
        if store.interruptee.was_interrupted() {
            return Err(ErrorKind::Interrupted);
        }
        let (root, rows) = match self.local_tree_rows(&store.db.bookmarks, &store.db.places) {
            Ok(found) => found,
            Err(e) => {
                return Err(e);
            },
        };
        proof {
            lemma_root_guids_distinct();
        }
        let built = build_tree_by_structure(to_dogear_item(&root), to_parented(&rows));
        let mut tree = match built {
            Ok(tree) => tree,
            Err(e) => {
                return Err(to_error(&e));
            },
        };
        proof {
            let order = crate::local_tree::local_tree_order(store.db@.bookmarks);
            assert(order.drop_first().len() == order.len() - 1);
            assert(tree_items(tree) =~= local_tree_items(
                store.db@.bookmarks,
                store.db@.places,
                self.local_time.millis(),
            ));
        }
        let guids = tombstone_guids(&store.db.deleted);
        assert(guids.deep_view().len() == guids.len());
        assert(local_deletions(store.db@.deleted).len() == store.db@.deleted.len());
        note_all_deleted(&mut tree, &guids);
        Ok(tree)
    }

    /// Builds a fully rooted tree from the live rows of the mirror and its
    /// tombstones that have yet to be merged: each live row is declared to
    /// the builder with the parent that it names, and then each child that a
    /// folder lists. An item whose parents disagree, or that has none, is put
    /// where the builder sees fit: an orphan goes to the unfiled bookmarks.
    ///
    /// In the tree that is built, every live row of the mirror is an item
    /// that hangs below the root.
    pub fn fetch_remote_tree(&self, store: &BookmarksStore) -> (r: Result<dogear::Tree, ErrorKind>)
        ensures
            store.interruptee.interrupted <==> r == Err::<dogear::Tree, ErrorKind>(
                ErrorKind::Interrupted,
            ),
            !store.interruptee.interrupted ==> match store.db@.remote_tree_error(
                self.remote_time.0,
            ) {
                Some(e) => r == Err::<dogear::Tree, ErrorKind>(e),
                None => r is Ok,
            },
            !store.interruptee.interrupted && remote_root_index(store.db@.synced) is None <==> r
                == Err::<dogear::Tree, ErrorKind>(
                ErrorKind::Corruption(Corruption::InvalidSyncedRoots),
            ),
            r matches Ok(tree) ==> tree_model(tree) == store.db@.remote_tree(self.remote_time.0)
                && Some(tree_items(tree)) == remote_tree_items(store.db@, self.remote_time.0)
                && tree_items(tree).len() > 0 && tree_items(tree)[0].guid == root_guid()
                && validation_of(tree_problems(tree)) == store.db@.remote_tree_problems(
                self.remote_time.0,
            ),
            r matches Ok(tree) ==> is_rooted(tree_entries(tree)) && forall|i: int|
                0 <= i < store.db@.synced.len() && !(#[trigger] store.db@.synced[i]).is_deleted
                    ==> holds_below_root(tree_entries(tree), store.db@.synced[i].guid),
            r matches Err(e) ==> e is Interrupted || e is Corruption || e is Merge,
    {
        if store.interruptee.was_interrupted() {
            return Err(ErrorKind::Interrupted);
        }
        let root = match find_remote_root(&store.db.synced) {
            Some(i) => self.remote_row_to_item(&store.db.synced[i]),
            None => {
                return Err(ErrorKind::Corruption(Corruption::InvalidSyncedRoots));
            },
        };
        let rows = self.remote_tree_rows(&store.db.synced);
        let edges = remote_edges(&store.db.synced_structure);
        proof {
            lemma_root_guids_distinct();
        }
        let built = build_tree_by_guids(
            to_dogear_item(&root),
            guid_from_str(BookmarkRootGuid::Unfiled.as_str()),
            to_maybe_parented(&rows),
            to_listed(&edges),
        );
        let mut tree = match built {
            Ok(tree) => tree,
            Err(e) => {
                return Err(to_error(&e));
            },
        };
        let guids = remote_tombstones(&store.db.synced);
        assert(guids.deep_view().len() == guids.len());
        note_all_deleted(&mut tree, &guids);
        proof {
            let entries = tree_entries(tree);
            let items = remote_tree_items(store.db@, self.remote_time.0).unwrap();
            assert forall|i: int|
                0 <= i < store.db@.synced.len() && !(
                #[trigger] store.db@.synced[i]).is_deleted implies holds_below_root(
                entries,
                store.db@.synced[i].guid,
            ) by {
                crate::laws::lemma_live_rows_are_in_the_remote_tree(
                    store.db@,
                    self.remote_time.0,
                    i,
                );
                let k = choose|k: int|
                    0 <= k < items.len() && (#[trigger] items[k]).guid == store.db@.synced[i].guid;
                assert(entries[k].item == items[k]);
                assert(hangs_below_root(entries, k));
            }
        }
        Ok(tree)
    }

    /// Applies a merged tree to the local tree, and stages what is to go up.
    /// A local tree that is sound, fully rooted and with one entry per guid,
    /// stays so: a merged tree that would leave it unsound is not applied.
    ///
    /// Nothing changes where the store was interrupted, where the local
    /// tree has no keys left for the new items, or where the merged tree
    /// would leave a sound local tree unsound.
    pub fn apply(
        &self,
        store: &mut BookmarksStore,
        descendants: &Vec<MergedRow>,
        deletions: &Vec<RemovalRow>,
    ) -> (r: Result<(), ErrorKind>)
        ensures
            final(store).interruptee == old(store).interruptee,
            r is Err ==> final(store).db@ == old(store).db@,
            r == old(store).applies(
                descendants.deep_view(),
                deletions.deep_view(),
                self.local_time.millis(),
            ),
            r is Ok ==> final(store).db@ == old(store).db@.apply_merged(
                descendants.deep_view(),
                deletions.deep_view(),
                self.local_time.millis(),
            ).staged(descendants.deep_view()),
            r is Ok && old(store).db@.local_tree_is_sound() ==> final(store).db@.local_tree_is_sound(),
            old(store).db@.has_unique_keys() ==> final(store).db@.has_unique_keys(),
    {
        let snapshot = store.db.duplicate();
        let was_sound = local_tree_is_sound(&store.db.bookmarks);
        match store.update_local_items(self.local_time, descendants, deletions) {
            Ok(()) => {},
            Err(e) => {
                return Err(e);
            },
        }
        if was_sound && !local_tree_is_sound(&store.db.bookmarks) {
            store.db = snapshot;
            return Err(ErrorKind::Merge(MergeError::MergeConflict));
        }
        store.stage_local_items_to_upload(descendants);
        Ok(())
    }

    /// Merges the local tree and the mirror, applies the merged tree to the
    /// local tree and stages what is to go up. Where there is nothing to
    /// merge, nothing happens. The merger runs with its default driver: it
    /// gives up on a guid that is invalid. Where the merger reports on the
    /// structure of the server's tree, the report is taken in whether or not
    /// the merge succeeds.
    pub fn merge(&self, store: &mut BookmarksStore, telem: &mut Engine) -> (r: Result<
        (),
        ErrorKind,
    >)
        ensures
            final(store).interruptee == old(store).interruptee,
            old(store).merges(self.remote_time.0, self.local_time.millis(), r, final(store).db@),
            !old(store).db@.has_changes() ==> r is Ok && final(store).db@ == old(store).db@,
            old(store).db@.has_changes() && old(store).interruptee.interrupted ==> r == Err::<
                (),
                ErrorKind,
            >(ErrorKind::Interrupted),
            old(store).db@.has_changes() && !old(store).interruptee.interrupted ==> (old(
                store,
            ).db@.merge_error(self.remote_time.0, self.local_time.millis()) matches Some(e) ==> r
                == Err::<(), ErrorKind>(e)),
            r is Err ==> final(store).db@ == old(store).db@,
            r is Ok && old(store).db@.local_tree_is_sound() ==> final(store).db@.local_tree_is_sound(),
            if old(store).db@.has_changes() && self.reports_validation {
                final(telem).validation matches Some(v) && v.problems.deep_view() == old(
                    store,
                ).merge_problems(self.remote_time.0, self.local_time.millis())
            } else {
                final(telem).validation == old(telem).validation
            },
            final(telem).incoming == old(telem).incoming,
            final(telem).name == old(telem).name,
            old(store).db@.has_unique_keys() ==> final(store).db@.has_unique_keys(),
    {
        if !store.has_changes() {
            return Ok(());
        }
        let mut validation = Validation::new();
        let result = self.merge_and_apply(store, &mut validation);
        if self.reports_validation {
            telem.validation(validation);
        }
        result
    }

    fn merge_and_apply(&self, store: &mut BookmarksStore, validation: &mut Validation) -> (r:
        Result<(), ErrorKind>)
        requires
            old(store).db@.has_changes(),
            old(validation).problems.deep_view() == Seq::<ProblemModel>::empty(),
        ensures
            final(store).interruptee == old(store).interruptee,
            old(store).merges(self.remote_time.0, self.local_time.millis(), r, final(store).db@),
            final(validation).problems.deep_view() == old(store).merge_problems(
                self.remote_time.0,
                self.local_time.millis(),
            ),
            r is Err ==> final(store).db@ == old(store).db@,
            r is Ok && old(store).db@.local_tree_is_sound() ==> final(store).db@.local_tree_is_sound(),
            old(store).db@.has_unique_keys() ==> final(store).db@.has_unique_keys(),
    {
        let ghost before = *store;
        let ghost remote_time = self.remote_time.0;
        let ghost local_time = self.local_time.millis();
        let local_tree = match self.fetch_local_tree(store) {
            Ok(tree) => tree,
            Err(e) => {
                return Err(e);
            },
        };
        let new_local = match self.fetch_new_local_contents(store) {
            Ok(contents) => to_keyed(&contents),
            Err(e) => {
                return Err(e);
            },
        };
        let remote_tree = match self.fetch_remote_tree(store) {
            Ok(tree) => tree,
            Err(e) => {
                return Err(e);
            },
        };
        *validation = record_telemetry_event(&problem_counts(&remote_tree));
        let new_remote = match self.fetch_new_remote_contents(store) {
            Ok(contents) => to_keyed(&contents),
            Err(e) => {
                return Err(e);
            },
        };
        assert(merge_input(local_tree, new_local@, remote_tree, new_remote@)
            == before.db@.merger_input(remote_time, local_time));
        let output = match run_merge(&local_tree, new_local, &remote_tree, new_remote) {
            Ok(output) => output,
            Err(e) => {
                return Err(to_error(&e));
            },
        };
        // The merged tree has to know of every item of the two trees:
        // otherwise it is incomplete, and cannot be applied.
        if !output.subsumes_local {
            return Err(ErrorKind::Merge(MergeError::UnmergedLocalItems));
        }
        if !output.subsumes_remote {
            return Err(ErrorKind::Merge(MergeError::UnmergedRemoteItems));
        }
        let ghost nodes = before.db@.merged_nodes(remote_time, local_time);
        assert(nodes == output.descendants@.map_values(
            |parts: DescendantParts| descendant_model(parts),
        ));
        assert(before.db@.merged_nodes_fit(remote_time, local_time) <==> forall|j: int|
            0 <= j < output.descendants.len() ==> fits_a_row(
                descendant_model(#[trigger] output.descendants[j]),
            )) by {
            if before.db@.merged_nodes_fit(remote_time, local_time) {
                assert forall|j: int| 0 <= j < output.descendants.len() implies fits_a_row(
                    descendant_model(#[trigger] output.descendants[j]),
                ) by {
                    assert(fits_a_row(nodes[j]));
                }
            }
            if forall|j: int|
                0 <= j < output.descendants.len() ==> fits_a_row(
                    descendant_model(#[trigger] output.descendants[j]),
                ) {
                assert forall|j: int| 0 <= j < nodes.len() implies fits_a_row(
                    #[trigger] nodes[j],
                ) by {
                    assert(nodes[j] == descendant_model(output.descendants[j]));
                }
            }
        }
        let descendants = match merged_rows(&output.descendants) {
            Some(rows) => rows,
            None => {
                return Err(ErrorKind::Storage);
            },
        };
        let deletions = removal_rows(&output.deletions);
        assert(descendants.deep_view() == before.db@.merged_rows(remote_time, local_time));
        assert(deletions.deep_view().to_set() == before.db@.merged_deletions(
            remote_time,
            local_time,
        ));
        assert(before.db@.merge_error(remote_time, local_time) is None);
        let r = self.apply(store, &descendants, &deletions);
        assert(before.db@.merged_by(deletions.deep_view(), remote_time, local_time, r, store.db@));
        r
    }
}

} // verus!
