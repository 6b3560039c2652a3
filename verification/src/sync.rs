//! A sync, as the sync client drives it: the incoming records are applied
//! and the outgoing ones handed out; once the server has taken them, the
//! sync is finished.

use vstd::prelude::*;
use crate::db::{DbModel, MetaModel};
use crate::error::ErrorKind;
use crate::frecency::{is_stale, rescored};
use crate::incoming::{lemma_staging_keeps_the_local_tree, tallied};
use crate::merger::Merger;
use crate::record::{IncomingChangeset, OutgoingChangeset, RecordModel};
use crate::soundness::lemma_push_synced_keeps_the_local_tree;
use crate::store::BookmarksStore;
use crate::telemetry::{Engine, EngineIncoming};
use crate::types::{ServerTimestamp, Timestamp};

verus! {

impl DbModel {
    /// The store with `time` as the server's time of the last sync.
    pub open spec fn with_last_sync(self, time: i64) -> DbModel {
        DbModel { meta: MetaModel { last_sync: Some(time), ..self.meta }, ..self }
    }

    /// The store with the incoming changes staged and their time noted.
    pub open spec fn with_staged_changes(self, changes: Seq<(RecordModel, i64)>, time: i64) -> DbModel {
        self.apply_records(changes, changes.len() as int).with_last_sync(time)
    }

    /// Whether a sync of this store, in which the incoming records are
    /// staged already and which nothing interrupts, leaves the store as
    /// `after` and hands out `sent`: the store is merged, and the records
    /// that are to go up are read from what the merge leaves, unless the
    /// merge fails, which then is why the sync fails.
    pub open spec fn merged_and_sent(
        self,
        remote_time: i64,
        local_time: i64,
        after: DbModel,
        sent: Result<Seq<RecordModel>, ErrorKind>,
    ) -> bool {
        exists|merged: Result<(), ErrorKind>| #[trigger]
            self.merges(remote_time, local_time, merged, after) && sent == match merged {
                Ok(()) => after.outgoing(),
                Err(e) => Err(e),
            }
    }
}

/// What a sync hands out, with the records as what they say.
pub open spec fn sent_by(r: Result<OutgoingChangeset, ErrorKind>) -> Result<
    Seq<RecordModel>,
    ErrorKind,
> {
    match r {
        Ok(out) => Ok(out.changes.deep_view()),
        Err(e) => Err(e),
    }
}

impl BookmarksStore {
    /// Applies the incoming records: stages them in the mirror, notes the
    /// server's time of the changeset as the time of the last sync, merges
    /// the mirror with the local tree, and hands out the records that are to
    /// go up.
    ///
    /// The time of the last sync is noted before the merge, and stays noted
    /// where the merge fails: the records need not come again. The report
    /// says how many records were staged and how many were left out, and,
    /// where there was something to merge, what the builder found wrong with
    /// the structure of the mirror's tree. A store that was interrupted, or
    /// whose places have no keys left for the URLs of the records, keeps
    /// what it held, and the report stays as it was.
    pub fn apply_incoming(
        &mut self,
        inbound: &IncomingChangeset,
        telem: &mut Engine,
        now: Timestamp,
    ) -> (r: Result<OutgoingChangeset, ErrorKind>)
        ensures
            final(self).interruptee == old(self).interruptee,
            old(self).interruptee.interrupted ==> r == Err::<OutgoingChangeset, ErrorKind>(
                ErrorKind::Interrupted,
            ) && final(self).db@ == old(self).db@ && *final(telem) == *old(telem),
            !old(self).interruptee.interrupted && !old(self).db@.has_room_for_places(
                inbound.changes.deep_view(),
            ) ==> r == Err::<OutgoingChangeset, ErrorKind>(ErrorKind::Storage) && final(self).db@
                == old(self).db@ && *final(telem) == *old(telem),
            !old(self).interruptee.interrupted && old(self).db@.has_room_for_places(
                inbound.changes.deep_view(),
            ) ==> {
                let staged = old(self).db@.with_staged_changes(
                    inbound.changes.deep_view(),
                    inbound.timestamp.0,
                );
                &&& staged.merged_and_sent(
                    inbound.timestamp.0,
                    now.millis(),
                    final(self).db@,
                    sent_by(r),
                )
                &&& !staged.has_changes() ==> final(self).db@ == staged && sent_by(r)
                    == staged.outgoing()
                &&& staged.has_changes() ==> (staged.merge_error(
                    inbound.timestamp.0,
                    now.millis(),
                ) matches Some(e) ==> final(self).db@ == staged && r == Err::<
                    OutgoingChangeset,
                    ErrorKind,
                >(e))
                &&& r matches Ok(out) ==> out.timestamp == inbound.timestamp && out.collection@
                    == "bookmarks"@
                &&& final(telem).name == old(telem).name
                &&& final(telem).incoming == Some(
                    tallied(
                        EngineIncoming { applied: 0, failed: 0 },
                        inbound.changes.deep_view(),
                        inbound.changes.len() as int,
                    ),
                )
                &&& if staged.has_changes() {
                    final(telem).validation matches Some(v) && v.problems.deep_view()
                        == staged.merge_problems(inbound.timestamp.0, now.millis())
                } else {
                    final(telem).validation == old(telem).validation
                }
            },
            old(self).db@.local_tree_is_sound() ==> final(self).db@.local_tree_is_sound(),
            old(self).db@.has_unique_keys() ==> final(self).db@.has_unique_keys(),
    {
        proof {
            lemma_staging_keeps_the_local_tree(
                self.db@,
                inbound.changes.deep_view(),
                inbound.changes.len() as int,
            );
        }
        let mut incoming_telemetry = EngineIncoming::new();
        let timestamp = match self.stage_incoming(inbound, &mut incoming_telemetry) {
            Ok(timestamp) => timestamp,
            Err(e) => {
                return Err(e);
            },
        };
        telem.incoming(incoming_telemetry);
        // Note the time now: if the merge is interrupted, the same records
        // need not be downloaded again.
        self.db.meta.last_sync = Some(timestamp.0);
        let merger = Merger::with_telemetry(timestamp, now);
        let ghost staged = self.db@;
        let merged = merger.merge(self, telem);
        assert(staged.merges(timestamp.0, now.millis(), merged, self.db@));
        match merged {
            Ok(()) => {},
            Err(e) => {
                return Err(e);
            },
        }
        self.fetch_outgoing_records(timestamp)
    }

    /// Finishes a sync after the server has taken the records
    /// `records_synced` at its time `new_timestamp`: settles what went up,
    /// and recalculates the stale frecencies with `scorer`.
    pub fn sync_finished<F: Fn(i64) -> i32>(
        &mut self,
        new_timestamp: ServerTimestamp,
        records_synced: &Vec<String>,
        scorer: F,
    ) -> (r: Result<(), ErrorKind>)
        requires
            forall|id: i64| call_requires(scorer, (id,)),
        ensures
            final(self).interruptee == old(self).interruptee,
            old(self).interruptee.interrupted ==> r == Err::<(), ErrorKind>(
                ErrorKind::Interrupted,
            ) && final(self).db@ == old(self).db@,
            !old(self).interruptee.interrupted ==> {
                let pushed = old(self).db@.push_synced(records_synced.deep_view(), new_timestamp.0);
                &&& r is Ok
                &&& rescored(
                    pushed.places,
                    final(self).db@.places,
                    |id: i64| is_stale(pushed.stale_frecencies, id),
                    scorer,
                )
                &&& final(self).db@ == (DbModel {
                    places: final(self).db@.places,
                    stale_frecencies: Seq::empty(),
                    ..pushed
                })
                &&& final(self).db@.no_frecency_is_stale()
            },
            final(self).db@.local_tree_is_sound() == old(self).db@.local_tree_is_sound(),
            old(self).db@.has_unique_keys() ==> final(self).db@.has_unique_keys(),
    {
        proof {
            lemma_push_synced_keeps_the_local_tree(
                self.db@,
                records_synced.deep_view(),
                new_timestamp.0,
            );
        }
        match self.push_synced_items(new_timestamp, records_synced) {
            Ok(()) => {},
            Err(e) => {
                return Err(e);
            },
        }
        self.update_frecencies(scorer)
    }
}

} // verus!
