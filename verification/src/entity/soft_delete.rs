//! Soft deletion: records are marked deleted instead of removed, and the
//! ordinary queries do not see marked records.
use vstd::prelude::*;

verus! {

/// The bookkeeping times of a record, as UTC timestamps in seconds.
pub struct Timestamps {
    /// When the record was created.
    pub create_ts: i64,
    /// When the record was last written.
    pub update_ts: i64,
    /// When the record was deleted; `None` while it is live.
    pub delete_ts: Option<i64>,
}

/// Whether the ordinary queries (`find`, `find_by_id`) see a record: only
/// while it is not deleted. `find_all` sees every record.
pub open spec fn visible(t: Timestamps) -> bool {
    t.delete_ts is None
}

/// The times of a record about to be written at `now`: an insert sets the
/// creation and the update time, an update only the update time.
pub open spec fn saved_at(t: Timestamps, insert: bool, now: i64) -> Timestamps {
    Timestamps { create_ts: if insert { now } else { t.create_ts }, update_ts: now, delete_ts: t.delete_ts }
}

/// The times of a record deleted at `now`: marked deleted, otherwise
/// unchanged.
pub open spec fn deleted_at(t: Timestamps, now: i64) -> Timestamps {
    Timestamps { create_ts: t.create_ts, update_ts: t.update_ts, delete_ts: Some(now) }
}

impl Timestamps {
    /// Whether the ordinary queries see the record.
    pub fn is_visible(&self) -> (r: bool)
        ensures
            r == visible(*self),
    {
        self.delete_ts.is_none()
    }

    /// The times of the record about to be written at `now`.
    pub fn before_save(&self, insert: bool, now: i64) -> (r: Timestamps)
        ensures
            r == saved_at(*self, insert, now),
    {
        Timestamps {
            create_ts: if insert { now } else { self.create_ts },
            update_ts: now,
            delete_ts: self.delete_ts,
        }
    }

    /// The times of the record deleted at `now`.
    pub fn mark_deleted(&self, now: i64) -> (r: Timestamps)
        ensures
            r == deleted_at(*self, now),
    {
        Timestamps { create_ts: self.create_ts, update_ts: self.update_ts, delete_ts: Some(now) }
    }
}

/// A deleted record is no longer seen by the ordinary queries, and saving
/// it again (insert or update, at any time) does not bring it back.
pub proof fn law_deleted_stays_hidden(t: Timestamps, now: i64, insert: bool, later: i64)
    ensures
        !visible(deleted_at(t, now)),
        !visible(saved_at(deleted_at(t, now), insert, later)),
{
}

/// Saving never changes whether a record is deleted, and an update keeps
/// its creation time.
pub proof fn law_save_keeps_deletion_and_creation(t: Timestamps, insert: bool, now: i64)
    ensures
        visible(saved_at(t, insert, now)) == visible(t),
        !insert ==> saved_at(t, insert, now).create_ts == t.create_ts,
        saved_at(t, insert, now).update_ts == now,
{
}

} // verus!
