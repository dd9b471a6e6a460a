//! Update ingress: how a new snapshot enters the service.

use crate::snapshot::ScoreData;
use crate::state::AppState;
use crate::store::replaced;
use vstd::prelude::*;

verus! {

/// Why an update was refused.
#[derive(Debug, Clone, Copy, PartialEq, Eq, Structural)]
pub enum IngressError {
    /// The snapshot has not the shape of a score state: one of its games
    /// enters a participant twice.
    Malformed,
}

impl IngressError {
    /// The error in words.
    pub fn message(&self) -> (text: String)
        ensures
            text@ == "malformed score update: a participant is entered twice in a game"@,
    {
        "malformed score update: a participant is entered twice in a game".to_owned()
    }
}

/// Takes in a score update. A well-formed snapshot becomes the current one
/// in the store, is then published to every live subscription, and is handed
/// back as it was accepted. The store is replaced before the hub publishes,
/// so that a viewer woken by the publish who reads the store finds nothing
/// older than what woke it. A malformed snapshot is refused, and nothing
/// changes.
pub fn receive_scores_handler(state: &mut AppState, score_data: ScoreData) -> (accepted: Result<
    ScoreData,
    IngressError,
>)
    ensures
        final(state).config == old(state).config,
        score_data@.well_formed() ==> {
            &&& accepted == Ok::<ScoreData, IngressError>(score_data)
            &&& final(state).scores@ == replaced(old(state).scores@, score_data@)
            &&& final(state).hub@ == old(state).hub@.publish(score_data@)
        },
        !score_data@.well_formed() ==> {
            &&& accepted == Err::<ScoreData, IngressError>(IngressError::Malformed)
            &&& final(state).scores@ == old(state).scores@
            &&& final(state).hub@ == old(state).hub@
        },
{
    if !score_data.is_well_formed() {
        return Err(IngressError::Malformed);
    }
    state.scores.replace(score_data.clone());
    let _ = state.hub.publish(&score_data);
    Ok(score_data)
}

} // verus!
