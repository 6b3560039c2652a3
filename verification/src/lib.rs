//! The core of a two-way bookmark sync engine, verified with Verus.
//!
//! The engine reconciles a local tree of bookmarks with the tree that a
//! server holds. One sync stages the incoming records in a mirror of the
//! server's tree, builds the local tree and the mirror's tree, has the
//! `dogear` crate merge the two, applies the merged tree to the local tree,
//! and stages what is to go up; once the server has taken the outgoing
//! records, the sync is finished.
//!
//! The store is a set of tables in memory ([`db::PlacesDb`]). Every
//! operation on it has a contract over the store as a mathematical value
//! ([`db::DbModel`]): sequences of rows whose strings are their texts.
//!
//! - [`types`], [`guid`], [`record`], [`rows`], [`db`], [`roots`]: the data.
//! - [`incoming`], [`href`]: staging incoming records in the mirror.
//! - [`local_tree`], [`remote_tree`], [`merger`], [`changes`]: the two trees
//!   as rows, and whether there is anything to merge.
//! - [`tree`], [`merge_driver`]: the trees and the merge of the `dogear`
//!   crate, behind trusted items, and one merge from end to end.
//! - [`applier`], [`soundness`], [`snapshot`], [`staging`], [`outgoing`]:
//!   applying a merged tree, and what goes up.
//! - [`finalize`], [`frecency`], [`sync`]: finishing a sync.
//! - [`lifecycle`]: forgetting the server, and erasing the local tree.
//! - [`keys`], [`laws`]: what holds of the store after each operation.
//! - [`order`], [`text_order`], [`seqs`], [`text`], [`fragments`],
//!   [`telemetry`], [`reupload`], [`error`], [`store`]: the rest.

pub mod applier;
pub mod changes;
pub mod db;
pub mod error;
pub mod finalize;
pub mod fragments;
pub mod frecency;
pub mod guid;
pub mod href;
pub mod incoming;
pub mod keys;
pub mod laws;
pub mod lifecycle;
pub mod local_tree;
pub mod merge_driver;
pub mod merger;
pub mod order;
pub mod outgoing;
pub mod record;
pub mod remote_tree;
pub mod reupload;
pub mod roots;
pub mod rows;
pub mod seqs;
pub mod snapshot;
pub mod soundness;
pub mod staging;
pub mod store;
pub mod sync;
pub mod telemetry;
pub mod text;
pub mod text_order;
pub mod tree;
pub mod types;
