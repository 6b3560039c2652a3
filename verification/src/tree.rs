//! The trees that the `dogear` crate merges, and the merge itself. The
//! crate's values are opaque here: what this module says of them, it says
//! over the names below.

use vstd::prelude::*;
use std::collections::HashMap;
use crate::error::MergeError;
use crate::guid::is_user_root_guid;
use crate::merger::{ItemContentModel, NewContentModel};
use crate::rows::RemovalRowModel;
use crate::types::{SyncedBookmarkKind, SyncedBookmarkValidity};

verus! {

/// `dogear::Guid`, a guid of the merger. Opaque: `guid_text` names its text.
#[verifier::external_type_specification]
#[verifier::external_body]
pub struct ExGuid(dogear::Guid);

/// `dogear::Kind`, the kinds of items that the merger knows.
#[verifier::external_type_specification]
pub struct ExKind(dogear::Kind);

/// `dogear::Validity`, the validities that the merger knows.
#[verifier::external_type_specification]
pub struct ExValidity(dogear::Validity);

/// `dogear::Item`, an item as the merger takes it.
#[verifier::external_type_specification]
pub struct ExItem(dogear::Item);

/// `dogear::Content`, the content by which the merger tells whether two
/// items are the same.
#[verifier::external_type_specification]
pub struct ExContent(dogear::Content);

/// `dogear::UploadReason`, why a merged node goes up, if it does.
#[verifier::external_type_specification]
pub struct ExUploadReason(dogear::UploadReason);

/// `dogear::ProblemCounts`, how many items have each kind of problem.
#[verifier::external_type_specification]
pub struct ExProblemCounts(dogear::ProblemCounts);

/// `dogear::Deletion`, a deletion that a merge accepted.
#[verifier::external_type_specification]
pub struct ExDeletion<'t>(dogear::Deletion<'t>);

/// `dogear::Tree`, a tree of the merger. Opaque: `tree_items` and
/// `tree_deleted` name what it holds.
#[verifier::external_type_specification]
#[verifier::external_body]
pub struct ExTree(dogear::Tree);

/// `dogear::Error`, an error of the merger. Opaque.
#[verifier::external_type_specification]
#[verifier::external_body]
pub struct ExError(dogear::Error);

/// `dogear::MergedDescendant`, a node of a merged tree. Opaque.
#[verifier::external_type_specification]
#[verifier::external_body]
pub struct ExMergedDescendant<'t>(dogear::MergedDescendant<'t>);

/// The text of a guid of the merger.
pub uninterp spec fn guid_text(guid: dogear::Guid) -> Seq<char>;

/// The kind that an error of the merger holds, or nothing where the error
/// says that the merge was aborted.
pub uninterp spec fn merger_error_kind(error: dogear::Error) -> Option<MergeError>;

/// The entries of a tree, in the order in which the tree was given its
/// items; the first is the root.
pub uninterp spec fn tree_entries(tree: dogear::Tree) -> Seq<EntryModel>;

/// The guids that a tree knows to be deleted.
pub uninterp spec fn tree_deleted(tree: dogear::Tree) -> Set<Seq<char>>;

/// How many items of a tree the builder found to have each kind of
/// problem.
pub uninterp spec fn tree_problems(tree: dogear::Tree) -> dogear::ProblemCounts;

/// The entries of the tree that the builder makes of a root and of items
/// that are declared with their parents by structure.
pub uninterp spec fn built_by_structure(root: TreeItemModel, rows: Seq<DeclaredModel>) -> Seq<
    EntryModel,
>;

/// Why the builder makes no tree of a root and of items that are declared
/// with their parents by structure, or nothing where it makes one.
pub uninterp spec fn failure_by_structure(root: TreeItemModel, rows: Seq<DeclaredModel>) -> Option<
    MergeError,
>;

/// The entries of the tree that the builder makes of a root, of items that
/// are declared with the parents that they name, if they name any, and of
/// the children that folders list, where orphans go to the folder `orphans`.
pub uninterp spec fn built_by_guids(
    root: TreeItemModel,
    orphans: Seq<char>,
    rows: Seq<DeclaredModel>,
    listed: Seq<ListedModel>,
) -> Seq<EntryModel>;

/// Why the builder makes no tree of what `built_by_guids` takes, or nothing
/// where it makes one.
pub uninterp spec fn failure_by_guids(
    root: TreeItemModel,
    orphans: Seq<char>,
    rows: Seq<DeclaredModel>,
    listed: Seq<ListedModel>,
) -> Option<MergeError>;

/// The problems that the builder finds in what `built_by_guids` takes.
pub uninterp spec fn problems_by_guids(
    root: TreeItemModel,
    orphans: Seq<char>,
    rows: Seq<DeclaredModel>,
    listed: Seq<ListedModel>,
) -> dogear::ProblemCounts;

/// The nodes of the tree that the merger makes of a local and a remote
/// tree and of the contents of their new items, but for the root, each
/// parent before its children.
pub uninterp spec fn merged_nodes(input: MergeInput) -> Seq<DescendantModel>;

/// The deletions that the merger accepts when it merges a local and a
/// remote tree.
pub uninterp spec fn accepted_deletions(input: MergeInput) -> Set<RemovalRowModel>;

/// Why the merger does not merge a local and a remote tree, or nothing
/// where it merges them.
pub uninterp spec fn merge_failure(input: MergeInput) -> Option<MergeError>;

/// Whether the merge accounts for every guid of the local tree.
pub uninterp spec fn subsumes_local(input: MergeInput) -> bool;

/// Whether the merge accounts for every guid of the remote tree.
pub uninterp spec fn subsumes_remote(input: MergeInput) -> bool;

/// What the merger goes by: the two trees, and the contents of the new
/// items on either side.
pub ghost struct MergeInput {
    pub local: TreeModel,
    pub new_local: Seq<NewContentModel>,
    pub remote: TreeModel,
    pub new_remote: Seq<NewContentModel>,
}

/// An entry of a tree: an item, where it hangs, what hangs below it in
/// which order, and whether the builder found its parents to disagree. The
/// root hangs nowhere.
pub ghost struct EntryModel {
    pub item: TreeItemModel,
    pub parent: Option<int>,
    pub children: Seq<int>,
    pub diverged: bool,
}

/// A tree as the merger reads it.
pub ghost struct TreeModel {
    pub entries: Seq<EntryModel>,
    pub deleted: Set<Seq<char>>,
}

/// An item as it is declared to the builder, with the parent that is
/// declared for it, if one is.
pub ghost struct DeclaredModel {
    pub item: TreeItemModel,
    pub parent: Option<Seq<char>>,
}

/// A child as a folder lists it.
pub ghost struct ListedModel {
    pub child: Seq<char>,
    pub parent: Seq<char>,
}

/// A node of a merged tree.
pub ghost struct DescendantModel {
    pub local_guid: Option<Seq<char>>,
    pub remote_guid: Option<Seq<char>>,
    pub merged_guid: Seq<char>,
    pub merged_parent_guid: Seq<char>,
    pub level: int,
    pub position: int,
    /// Whether the remote side is to be applied.
    pub should_apply: bool,
    /// Whether the merger has a reason to upload the node.
    pub should_upload: bool,
}

/// How many steps the entry at `i` hangs below the first entry, if going
/// from parent to parent reaches the first entry within `fuel` steps.
pub open spec fn steps_to_root(entries: Seq<EntryModel>, i: int, fuel: nat) -> Option<int>
    decreases fuel,
{
    if !(0 <= i < entries.len()) {
        None
    } else if i == 0 {
        Some(0)
    } else if fuel == 0 {
        None
    } else {
        match entries[i].parent {
            Some(p) => match steps_to_root(entries, p, (fuel - 1) as nat) {
                Some(d) => Some(d + 1),
                None => None,
            },
            None => None,
        }
    }
}

/// Whether the entry at `i` hangs below the first entry, the root.
pub open spec fn hangs_below_root(entries: Seq<EntryModel>, i: int) -> bool {
    steps_to_root(entries, i, entries.len()) is Some
}

/// Whether every entry hangs below the first entry, the root.
pub open spec fn is_rooted(entries: Seq<EntryModel>) -> bool {
    forall|i: int| 0 <= i < entries.len() ==> hangs_below_root(entries, i)
}

/// The items of a tree; the first is the root.
pub open spec fn tree_items(tree: dogear::Tree) -> Seq<TreeItemModel> {
    tree_entries(tree).map_values(|e: EntryModel| e.item)
}

/// A tree as the merger reads it.
pub open spec fn tree_model(tree: dogear::Tree) -> TreeModel {
    TreeModel { entries: tree_entries(tree), deleted: tree_deleted(tree) }
}

/// What the merger goes by when it is given two trees and the contents of
/// the new items on either side.
pub open spec fn merge_input(
    local: dogear::Tree,
    new_local: Seq<KeyedContent>,
    remote: dogear::Tree,
    new_remote: Seq<KeyedContent>,
) -> MergeInput {
    MergeInput {
        local: tree_model(local),
        new_local: new_local.map_values(|c: KeyedContent| keyed_model(c)),
        remote: tree_model(remote),
        new_remote: new_remote.map_values(|c: KeyedContent| keyed_model(c)),
    }
}

/// An item of a tree: what the merger needs to know of it.
#[derive(Debug)]
pub struct TreeItem {
    pub guid: String,
    pub kind: SyncedBookmarkKind,
    /// In milliseconds.
    pub age: i64,
    pub needs_merge: bool,
    pub validity: SyncedBookmarkValidity,
}

/// What a `TreeItem` says, with the guid as its text.
pub ghost struct TreeItemModel {
    pub guid: Seq<char>,
    pub kind: SyncedBookmarkKind,
    pub age: i64,
    pub needs_merge: bool,
    pub validity: SyncedBookmarkValidity,
}

impl DeepView for TreeItem {
    type V = TreeItemModel;

    open spec fn deep_view(&self) -> TreeItemModel {
        TreeItemModel {
            guid: self.guid@,
            kind: self.kind,
            age: self.age,
            needs_merge: self.needs_merge,
            validity: self.validity,
        }
    }
}

/// The kind that the merger's kind stands for.
pub open spec fn kind_model(kind: dogear::Kind) -> SyncedBookmarkKind {
    match kind {
        dogear::Kind::Bookmark => SyncedBookmarkKind::Bookmark,
        dogear::Kind::Query => SyncedBookmarkKind::Query,
        dogear::Kind::Folder => SyncedBookmarkKind::Folder,
        dogear::Kind::Livemark => SyncedBookmarkKind::Livemark,
        dogear::Kind::Separator => SyncedBookmarkKind::Separator,
    }
}

/// The validity that the merger's validity stands for.
pub open spec fn validity_model(validity: dogear::Validity) -> SyncedBookmarkValidity {
    match validity {
        dogear::Validity::Valid => SyncedBookmarkValidity::Valid,
        dogear::Validity::Reupload => SyncedBookmarkValidity::Reupload,
        dogear::Validity::Replace => SyncedBookmarkValidity::Replace,
    }
}

/// What an item of the merger says.
pub open spec fn item_model(item: dogear::Item) -> TreeItemModel {
    TreeItemModel {
        guid: guid_text(item.guid),
        kind: kind_model(item.kind),
        age: item.age,
        needs_merge: item.needs_merge,
        validity: validity_model(item.validity),
    }
}

/// An item with the parent under which it is declared.
pub struct Parented {
    pub item: dogear::Item,
    pub parent: dogear::Guid,
}

/// An item with the parent that its own record names, if it names one.
pub struct MaybeParented {
    pub item: dogear::Item,
    pub parent: Option<dogear::Guid>,
}

/// A child as a folder's record lists it.
pub struct Listed {
    pub child: dogear::Guid,
    pub parent: dogear::Guid,
}

/// The content of an item, for the merger to compare.
pub struct KeyedContent {
    pub guid: dogear::Guid,
    pub content: dogear::Content,
}

/// What a merged node says of itself, as the merger hands it out.
pub struct DescendantParts {
    pub local_guid: Option<String>,
    pub remote_guid: Option<String>,
    pub merged_guid: String,
    pub merged_parent_guid: String,
    pub level: usize,
    pub position: usize,
    pub should_apply: bool,
    pub upload_reason: dogear::UploadReason,
}

/// What a `Parented` declares.
pub open spec fn parented_model(row: Parented) -> DeclaredModel {
    DeclaredModel { item: item_model(row.item), parent: Some(guid_text(row.parent)) }
}

/// What a `MaybeParented` declares.
pub open spec fn maybe_parented_model(row: MaybeParented) -> DeclaredModel {
    DeclaredModel {
        item: item_model(row.item),
        parent: match row.parent {
            Some(guid) => Some(guid_text(guid)),
            None => None,
        },
    }
}

/// What a `Listed` lists.
pub open spec fn listed_model(edge: Listed) -> ListedModel {
    ListedModel { child: guid_text(edge.child), parent: guid_text(edge.parent) }
}

/// What a content of the merger says.
pub open spec fn content_model(content: dogear::Content) -> ItemContentModel {
    match content {
        dogear::Content::Bookmark { title, url_href } => ItemContentModel::Bookmark {
            title: title@,
            url_href: url_href@,
        },
        dogear::Content::Folder { title } => ItemContentModel::Folder { title: title@ },
        dogear::Content::Separator { position } => ItemContentModel::Separator { position },
    }
}

/// What a `KeyedContent` says.
pub open spec fn keyed_model(keyed: KeyedContent) -> NewContentModel {
    NewContentModel { guid: guid_text(keyed.guid), content: content_model(keyed.content) }
}

/// What a `DescendantParts` says.
pub open spec fn descendant_model(parts: DescendantParts) -> DescendantModel {
    DescendantModel {
        local_guid: parts.local_guid.deep_view(),
        remote_guid: parts.remote_guid.deep_view(),
        merged_guid: parts.merged_guid@,
        merged_parent_guid: parts.merged_parent_guid@,
        level: parts.level as int,
        position: parts.position as int,
        should_apply: parts.should_apply,
        should_upload: !(parts.upload_reason is None),
    }
}

/// What a `DeletionParts` says.
pub open spec fn deletion_model(parts: DeletionParts) -> RemovalRowModel {
    RemovalRowModel {
        guid: parts.guid@,
        local_level: parts.local_level,
        should_upload_tombstone: parts.should_upload_tombstone,
    }
}

/// Makes a guid of the merger. Calls `dogear::Guid::from`.
///
/// Trusted: the guid holds the text that it was made from, whether or not
/// the text has the form of a valid guid.
#[verifier::external_body]
pub(crate) fn guid_from_str(text: &str) -> (guid: dogear::Guid)
    ensures
        guid_text(guid) == text@,
{
    dogear::Guid::from(text)
}

/// The text of a guid of the merger. Calls `dogear::Guid::as_str`.
///
/// Trusted: the string holds the text that `guid_text` names.
#[verifier::external_body]
pub(crate) fn guid_to_string(guid: &dogear::Guid) -> (text: String)
    ensures
        text@ == guid_text(*guid),
{
    guid.as_str().to_owned()
}

/// Builds a tree whose structure is known to be consistent: each row is
/// inserted with `item` and given its parent with `by_structure`, in order,
/// on a builder from `dogear::Tree::with_root`; `into_tree` ends it. The
/// crate does not export the type of its builder, so a builder cannot leave
/// the function that makes it, and the whole tree is built here.
///
/// Trusted: the builder is taken to go by what is declared to it and by
/// nothing else. Whether it makes a tree, and with which kind of error it
/// gives up if it makes none, is what `failure_by_structure` names; no
/// error of the builder says that it was aborted. A tree that was built
/// holds the root and the items of the rows, in their order, and knows of
/// no deletion; how its items hang is what `built_by_structure` names. It is
/// rooted: the builder gives every entry but the first a parent, and gives
/// up where the parents form a cycle. A root with the guid of a user root is
/// left out, because the builder panics on it.
#[verifier::external_body]
pub(crate) fn build_tree_by_structure(root: dogear::Item, rows: Vec<Parented>) -> (r: Result<
    dogear::Tree,
    dogear::Error,
>)
    requires
        !is_user_root_guid(guid_text(root.guid)),
    ensures
        r is Ok <==> failure_by_structure(
            item_model(root),
            rows@.map_values(|row: Parented| parented_model(row)),
        ) is None,
        r matches Err(e) ==> merger_error_kind(e) == failure_by_structure(
            item_model(root),
            rows@.map_values(|row: Parented| parented_model(row)),
        ),
        r matches Ok(tree) ==> tree_entries(tree) == built_by_structure(
            item_model(root),
            rows@.map_values(|row: Parented| parented_model(row)),
        ) && tree_items(tree) == seq![item_model(root)] + rows@.map_values(
            |row: Parented| item_model(row.item),
        ) && tree_deleted(tree) == Set::<Seq<char>>::empty(),
        r matches Ok(tree) ==> is_rooted(tree_entries(tree)),
{
    let mut builder = dogear::Tree::with_root(root);
    for row in rows {
        builder.item(row.item)?.by_structure(&row.parent)?;
    }
    builder.into_tree()
}

/// Builds a tree from parents that may disagree: on a builder from
/// `dogear::Tree::with_root`, orphans are sent to `orphans` with
/// `reparent_orphans_to`, each row is inserted with `item` and, where it
/// names a parent, given it with `by_parent_guid`; then each listed child is
/// given its folder with `parent_for` and `by_children`; `into_tree` ends
/// it. As the builder cannot leave the function that makes it, the whole
/// tree is built here.
///
/// Trusted: the builder is taken to go by what is declared to it and by
/// nothing else. Whether it makes a tree, and with which kind of error it
/// gives up if it makes none, is what `failure_by_guids` names; no error of
/// the builder says that it was aborted. A tree that was built holds the
/// root and the items of the rows, in their order, and knows of no deletion;
/// how its items hang is what `built_by_guids` names, and the problems that
/// the builder found are what `problems_by_guids` names. It is rooted: the
/// builder gives every entry but the first a parent, and gives up where the
/// parents form a cycle. A root with the guid of a user root is left out,
/// because the builder panics on it.
#[verifier::external_body]
pub(crate) fn build_tree_by_guids(
    root: dogear::Item,
    orphans: dogear::Guid,
    rows: Vec<MaybeParented>,
    listed: Vec<Listed>,
) -> (r: Result<dogear::Tree, dogear::Error>)
    requires
        !is_user_root_guid(guid_text(root.guid)),
    ensures
        r is Ok <==> failure_by_guids(
            item_model(root),
            guid_text(orphans),
            rows@.map_values(|row: MaybeParented| maybe_parented_model(row)),
            listed@.map_values(|edge: Listed| listed_model(edge)),
        ) is None,
        r matches Err(e) ==> merger_error_kind(e) == failure_by_guids(
            item_model(root),
            guid_text(orphans),
            rows@.map_values(|row: MaybeParented| maybe_parented_model(row)),
            listed@.map_values(|edge: Listed| listed_model(edge)),
        ),
        r matches Ok(tree) ==> tree_problems(tree) == problems_by_guids(
            item_model(root),
            guid_text(orphans),
            rows@.map_values(|row: MaybeParented| maybe_parented_model(row)),
            listed@.map_values(|edge: Listed| listed_model(edge)),
        ),
        r matches Ok(tree) ==> tree_entries(tree) == built_by_guids(
            item_model(root),
            guid_text(orphans),
            rows@.map_values(|row: MaybeParented| maybe_parented_model(row)),
            listed@.map_values(|edge: Listed| listed_model(edge)),
        ) && tree_items(tree) == seq![item_model(root)] + rows@.map_values(
            |row: MaybeParented| item_model(row.item),
        ) && tree_deleted(tree) == Set::<Seq<char>>::empty(),
        r matches Ok(tree) ==> is_rooted(tree_entries(tree)),
{
    let mut builder = dogear::Tree::with_root(root);
    builder.reparent_orphans_to(&orphans);
    for row in rows {
        let parent = builder.item(row.item)?;
        if let Some(guid) = row.parent {
            parent.by_parent_guid(guid)?;
        }
    }
    for edge in listed {
        builder.parent_for(&edge.child).by_children(&edge.parent)?;
    }
    builder.into_tree()
}

/// Tells a tree of a deletion. Calls `dogear::Tree::note_deleted`.
///
/// Trusted: the tree knows of the deletions that it knew of and of this one,
/// and holds the entries and the problems that it held.
#[verifier::external_body]
pub(crate) fn note_deleted(tree: &mut dogear::Tree, guid: dogear::Guid)
    ensures
        tree_entries(*final(tree)) == tree_entries(*old(tree)),
        tree_problems(*final(tree)) == tree_problems(*old(tree)),
        tree_deleted(*final(tree)) == tree_deleted(*old(tree)).insert(guid_text(guid)),
{
    tree.note_deleted(guid)
}

/// How many problems of each kind the builder found in a tree's structure.
/// Calls `dogear::Tree::problems` and `dogear::Problems::counts`.
///
/// Trusted: the counts are those of the problems that the tree holds, which
/// `tree_problems` names.
#[verifier::external_body]
pub(crate) fn problem_counts(tree: &dogear::Tree) -> (counts: dogear::ProblemCounts)
    ensures
        counts == tree_problems(*tree),
{
    tree.problems().counts()
}

/// What a merge gives: the nodes of the merged tree below the root, each
/// parent before its children; the deletions that the merge accepted, in no
/// particular order; and whether the merge accounts for every guid of each
/// tree.
pub struct MergeOutput {
    pub descendants: Vec<DescendantParts>,
    pub deletions: Vec<DeletionParts>,
    pub subsumes_local: bool,
    pub subsumes_remote: bool,
}

/// What an accepted deletion says.
pub struct DeletionParts {
    pub guid: String,
    pub local_level: i64,
    pub should_upload_tombstone: bool,
}

/// What an accepted deletion says.
pub fn deletion_parts<'a>(deletion: &dogear::Deletion<'a>) -> (parts: DeletionParts)
    ensures
        parts.guid@ == guid_text(*deletion.guid),
        parts.local_level == deletion.local_level,
        parts.should_upload_tombstone == deletion.should_upload_tombstone,
{
    DeletionParts {
        guid: guid_to_string(deletion.guid),
        local_level: deletion.local_level,
        should_upload_tombstone: deletion.should_upload_tombstone,
    }
}

/// Merges two trees with the crate's default driver, which takes no guid
/// that is invalid, and its default signal, which never aborts. Calls
/// `dogear::Merger::with_driver` and, on the merger, `merge`, `deletions`
/// and `subsumes`, and on the merged root `descendants`.
///
/// Trusted: the merger is taken to go by the two trees and the contents and
/// by nothing else. Whether it merges them, and with which kind of error it
/// gives up if it does not, is what `merge_failure` names; under the
/// default signal no error says that the merge was aborted. Of a merge that
/// succeeds, the nodes of the merged tree are what `merged_nodes` names, the
/// deletions, of which none comes twice, are those that `accepted_deletions`
/// names, and the two answers of `subsumes` are what `subsumes_local` and
/// `subsumes_remote` name. The deletions come in no particular order. The
/// roots of the two trees have to be the same item: the merger panics where
/// an item below one root is the other root.
#[verifier::external_body]
pub(crate) fn run_merge(
    local_tree: &dogear::Tree,
    new_local_contents: Vec<KeyedContent>,
    remote_tree: &dogear::Tree,
    new_remote_contents: Vec<KeyedContent>,
) -> (r: Result<MergeOutput, dogear::Error>)
    requires
        tree_items(*local_tree).len() > 0,
        tree_items(*remote_tree).len() > 0,
        tree_items(*local_tree)[0].guid == tree_items(*remote_tree)[0].guid,
    ensures
        r is Ok <==> merge_failure(
            merge_input(*local_tree, new_local_contents@, *remote_tree, new_remote_contents@),
        ) is None,
        r matches Err(e) ==> merger_error_kind(e) == merge_failure(
            merge_input(*local_tree, new_local_contents@, *remote_tree, new_remote_contents@),
        ),
        r matches Ok(out) ==> out.descendants@.map_values(
            |parts: DescendantParts| descendant_model(parts),
        ) == merged_nodes(
            merge_input(*local_tree, new_local_contents@, *remote_tree, new_remote_contents@),
        ),
        r matches Ok(out) ==> out.deletions@.map_values(
            |parts: DeletionParts| deletion_model(parts),
        ).no_duplicates() && out.deletions@.map_values(
            |parts: DeletionParts| deletion_model(parts),
        ).to_set() == accepted_deletions(
            merge_input(*local_tree, new_local_contents@, *remote_tree, new_remote_contents@),
        ),
        r matches Ok(out) ==> out.subsumes_local == subsumes_local(
            merge_input(*local_tree, new_local_contents@, *remote_tree, new_remote_contents@),
        ) && out.subsumes_remote == subsumes_remote(
            merge_input(*local_tree, new_local_contents@, *remote_tree, new_remote_contents@),
        ),
{
    let local: HashMap<_, _> = new_local_contents.into_iter().map(|c| (c.guid, c.content)).collect();
    let remote: HashMap<_, _> = new_remote_contents.into_iter().map(|c| (c.guid, c.content)).collect();
    let (driver, signal) = (dogear::DefaultDriver, dogear::DefaultAbortSignal);
    let mut merger =
        dogear::Merger::with_driver(&driver, &signal, local_tree, &local, remote_tree, &remote);
    let root = merger.merge()?;
    Ok(MergeOutput {
        descendants: root.descendants().iter().map(descendant_parts).collect(),
        deletions: merger.deletions().map(|d| deletion_parts(&d)).collect(),
        subsumes_local: merger.subsumes(local_tree),
        subsumes_remote: merger.subsumes(remote_tree),
    })
}

/// What a merged node says of itself: the guids of its two sides (from
/// `local_node` and `remote_node` of its `dogear::MergeState`), its own and
/// its parent's, its level and position, and what `should_apply` and
/// `upload_reason` of the state return. Nothing is claimed of them.
#[verifier::external_body]
pub(crate) fn descendant_parts<'a>(node: &dogear::MergedDescendant<'a>) -> (parts: DescendantParts) {
    let state = &node.merged_node.merge_state;
    DescendantParts {
        local_guid: state.local_node().map(|n| n.guid.as_str().to_owned()),
        remote_guid: state.remote_node().map(|n| n.guid.as_str().to_owned()),
        merged_guid: node.merged_node.guid.as_str().to_owned(),
        merged_parent_guid: node.merged_parent_node.guid.as_str().to_owned(),
        level: node.level,
        position: node.position,
        should_apply: state.should_apply(),
        upload_reason: state.upload_reason(),
    }
}

/// The kind of an error of the merger, or nothing where the merge was
/// aborted. Calls `dogear::Error::kind`, and tells the variants of
/// `dogear::ErrorKind` apart, one for one.
///
/// Trusted: the kind is the one that the error holds, which
/// `merger_error_kind` names. Nothing is claimed of which errors hold which
/// kind.
#[verifier::external_body]
pub(crate) fn merge_error_kind(error: &dogear::Error) -> (kind: Option<MergeError>)
    ensures
        kind == merger_error_kind(*error),
{
    match error.kind() {
        dogear::ErrorKind::MismatchedItemKind(..) => Some(MergeError::MismatchedItemKind),
        dogear::ErrorKind::DuplicateItem(..) => Some(MergeError::DuplicateItem),
        dogear::ErrorKind::InvalidParent(..) => Some(MergeError::InvalidParent),
        dogear::ErrorKind::MissingParent(..) => Some(MergeError::MissingParent),
        dogear::ErrorKind::MissingItem(..) => Some(MergeError::MissingItem),
        dogear::ErrorKind::Cycle(..) => Some(MergeError::Cycle),
        dogear::ErrorKind::MergeConflict => Some(MergeError::MergeConflict),
        dogear::ErrorKind::UnmergedLocalItems => Some(MergeError::UnmergedLocalItems),
        dogear::ErrorKind::UnmergedRemoteItems => Some(MergeError::UnmergedRemoteItems),
        dogear::ErrorKind::InvalidGuid(..) => Some(MergeError::InvalidGuid),
        dogear::ErrorKind::InvalidByte(..) => Some(MergeError::InvalidByte),
        dogear::ErrorKind::MalformedString(..) => Some(MergeError::MalformedString),
        dogear::ErrorKind::Abort => None,
    }
}

} // verus!
