//! The score store: the single holder of the latest snapshot.

use crate::snapshot::{optional_snapshot, ScoreData, Snapshot};
use vstd::prelude::*;

verus! {

/// Holds the latest snapshot, or none while no update has been made.
#[derive(Debug)]
pub struct ScoreStore {
    current: Option<ScoreData>,
}

impl View for ScoreStore {
    type V = Option<Snapshot>;

    closed spec fn view(&self) -> Option<Snapshot> {
        optional_snapshot(self.current)
    }
}

/// What a store holds once `snapshot` has replaced what it held.
pub open spec fn replaced(held: Option<Snapshot>, snapshot: Snapshot) -> Option<Snapshot> {
    Some(snapshot)
}

/// What a store holds once each of `snapshots` has replaced, in turn, what it
/// held.
pub open spec fn replaced_by_all(held: Option<Snapshot>, snapshots: Seq<Snapshot>) -> Option<
    Snapshot,
>
    decreases snapshots.len(),
{
    if snapshots.len() == 0 {
        held
    } else {
        replaced(replaced_by_all(held, snapshots.drop_last()), snapshots.last())
    }
}

/// After any run of replacements the store holds the last of them, whatever
/// it held before.
pub proof fn law_last_replacement_is_read(held: Option<Snapshot>, snapshots: Seq<Snapshot>)
    requires
        snapshots.len() > 0,
    ensures
        replaced_by_all(held, snapshots) == Some(snapshots.last()),
{
}

impl ScoreStore {
    /// A store in which no update has been made.
    pub fn new() -> (store: Self)
        ensures
            store@ is None,
    {
        ScoreStore { current: None }
    }

    /// Makes `snapshot` the current one, in place of any before it.
    pub fn replace(&mut self, snapshot: ScoreData)
        ensures
            final(self)@ == replaced(old(self)@, snapshot@),
    {
        self.current = Some(snapshot);
    }

    /// The current snapshot, or none while no update has been made.
    pub fn read(&self) -> (current: Option<ScoreData>)
        ensures
            optional_snapshot(current) == self@,
    {
        match &self.current {
            Some(snapshot) => Some(snapshot.clone()),
            None => None,
        }
    }
}

} // verus!
