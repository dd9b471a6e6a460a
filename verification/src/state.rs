//! What the parts of the service share.

use crate::config::Config;
use crate::hub::{FanoutHub, DEFAULT_CAPACITY};
use crate::store::ScoreStore;
use vstd::prelude::*;

verus! {

/// The shared state: the score store, the configuration, and the hub
/// through which score updates reach the viewers.
pub struct AppState {
    pub scores: ScoreStore,
    pub config: Config,
    pub hub: FanoutHub,
}

impl AppState {
    /// The state at start: no snapshot yet, no subscriptions, and queues of
    /// the default capacity.
    pub fn new(config: Config) -> (state: Self)
        ensures
            state.config == config,
            state.scores@ is None,
            state.hub@.wf(),
            state.hub@.capacity == DEFAULT_CAPACITY,
            state.hub@.issued == 0,
            state.hub@.queues == Map::<u64, Seq<crate::snapshot::Snapshot>>::empty(),
    {
        AppState { scores: ScoreStore::new(), config, hub: FanoutHub::new(DEFAULT_CAPACITY) }
    }
}

} // verus!
