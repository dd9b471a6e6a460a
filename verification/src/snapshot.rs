//! The score snapshot: the complete state of scoring at one instant.

use vstd::prelude::*;

verus! {

/// One participant's score in one game.
#[derive(Debug, PartialEq, Eq)]
pub struct ParticipantScore {
    pub participant: String,
    pub score: u32,
}

/// The scores of the games of a phase. A game that has not begun is absent.
/// A game holds one entry per participant, in the order in which they were
/// reported.
#[derive(Debug, PartialEq, Eq)]
pub struct Scores {
    pub game1: Option<Vec<ParticipantScore>>,
    pub game2: Option<Vec<ParticipantScore>>,
    pub final_game: Option<Vec<ParticipantScore>>,
}

/// A score snapshot: the current phase and the scores of its games. A
/// snapshot is replaced whole, never changed in part.
#[derive(Debug, PartialEq, Eq)]
pub struct ScoreData {
    pub phase: String,
    pub scores: Scores,
}

/// What a game is: each participant's identifier with its score.
pub type GameView = Seq<(Seq<char>, u32)>;

/// What the scores of a phase are.
#[verifier::ext_equal]
pub struct ScoresView {
    pub game1: Option<GameView>,
    pub game2: Option<GameView>,
    pub final_game: Option<GameView>,
}

/// What a snapshot is.
#[verifier::ext_equal]
pub struct Snapshot {
    pub phase: Seq<char>,
    pub scores: ScoresView,
}

impl View for ParticipantScore {
    type V = (Seq<char>, u32);

    open spec fn view(&self) -> (Seq<char>, u32) {
        (self.participant@, self.score)
    }
}

/// What the entries of a game are.
pub open spec fn game_view(entries: Seq<ParticipantScore>) -> GameView {
    Seq::new(entries.len(), |i: int| entries[i]@)
}

/// What a game that may be absent is.
pub open spec fn optional_game_view(game: Option<Vec<ParticipantScore>>) -> Option<GameView> {
    match game {
        Some(entries) => Some(game_view(entries@)),
        None => None,
    }
}

impl View for Scores {
    type V = ScoresView;

    open spec fn view(&self) -> ScoresView {
        ScoresView {
            game1: optional_game_view(self.game1),
            game2: optional_game_view(self.game2),
            final_game: optional_game_view(self.final_game),
        }
    }
}

impl View for ScoreData {
    type V = Snapshot;

    open spec fn view(&self) -> Snapshot {
        Snapshot { phase: self.phase@, scores: self.scores@ }
    }
}

/// What a snapshot that may be absent is.
pub open spec fn optional_snapshot(value: Option<ScoreData>) -> Option<Snapshot> {
    match value {
        Some(snapshot) => Some(snapshot@),
        None => None,
    }
}

/// No participant is entered twice in the game.
pub open spec fn distinct_participants(game: GameView) -> bool {
    forall|i: int, j: int| 0 <= i < j < game.len() ==> game[i].0 != game[j].0
}

/// A game that is present enters no participant twice.
pub open spec fn game_well_formed(game: Option<GameView>) -> bool {
    match game {
        Some(entries) => distinct_participants(entries),
        None => true,
    }
}

impl ScoresView {
    /// Each game that is present maps participants to scores: none is
    /// entered twice.
    pub open spec fn well_formed(self) -> bool {
        &&& game_well_formed(self.game1)
        &&& game_well_formed(self.game2)
        &&& game_well_formed(self.final_game)
    }
}

impl Snapshot {
    /// The snapshot has the shape of a score state: each of its games maps
    /// participants to scores.
    pub open spec fn well_formed(self) -> bool {
        self.scores.well_formed()
    }
}

impl Clone for ParticipantScore {
    fn clone(&self) -> (copy: Self)
        ensures
            copy@ == self@,
    {
        ParticipantScore { participant: self.participant.clone(), score: self.score }
    }
}

/// A copy of the entries of a game.
fn clone_entries(entries: &Vec<ParticipantScore>) -> (copy: Vec<ParticipantScore>)
    ensures
        game_view(copy@) == game_view(entries@),
{
    let mut copy: Vec<ParticipantScore> = Vec::new();
    let count: usize = entries.len();
    let mut i: usize = 0;
    while i < count
        invariant
            count == entries.len(),
            i <= count,
            copy.len() == i,
            forall|k: int| 0 <= k < i ==> copy[k]@ == entries[k]@,
        decreases count - i,
    {
        copy.push(entries[i].clone());
        i = i + 1;
    }
    assert(game_view(copy@) =~= game_view(entries@));
    copy
}

/// A copy of a game that may be absent.
fn clone_game(game: &Option<Vec<ParticipantScore>>) -> (copy: Option<Vec<ParticipantScore>>)
    ensures
        optional_game_view(copy) == optional_game_view(*game),
{
    match game {
        Some(entries) => Some(clone_entries(entries)),
        None => None,
    }
}

impl Clone for Scores {
    fn clone(&self) -> (copy: Self)
        ensures
            copy@ == self@,
    {
        Scores {
            game1: clone_game(&self.game1),
            game2: clone_game(&self.game2),
            final_game: clone_game(&self.final_game),
        }
    }
}

impl Clone for ScoreData {
    fn clone(&self) -> (copy: Self)
        ensures
            copy@ == self@,
    {
        ScoreData { phase: self.phase.clone(), scores: self.scores.clone() }
    }
}

/// Whether the entries of a game enter no participant twice.
fn entries_distinct(entries: &Vec<ParticipantScore>) -> (distinct: bool)
    ensures
        distinct == distinct_participants(game_view(entries@)),
{
    let count: usize = entries.len();
    let ghost game = game_view(entries@);
    let mut j: usize = 0;
    while j < count
        invariant
            count == entries.len(),
            j <= count,
            game == game_view(entries@),
            forall|a: int, b: int| 0 <= a < b < j ==> game[a].0 != game[b].0,
        decreases count - j,
    {
        let mut i: usize = 0;
        while i < j
            invariant
                count == entries.len(),
                j < count,
                i <= j,
                game == game_view(entries@),
                forall|a: int| 0 <= a < i ==> game[a].0 != game[j as int].0,
            decreases j - i,
        {
            if entries[i].participant == entries[j].participant {
                assert(game[i as int].0 == game[j as int].0);
                return false;
            }
            i = i + 1;
        }
        j = j + 1;
    }
    true
}

/// Whether a game that may be absent enters no participant twice.
fn game_is_well_formed(game: &Option<Vec<ParticipantScore>>) -> (well_formed: bool)
    ensures
        well_formed == game_well_formed(optional_game_view(*game)),
{
    match game {
        Some(entries) => entries_distinct(entries),
        None => true,
    }
}

impl ScoreData {
    /// Whether the snapshot has the shape of a score state.
    pub fn is_well_formed(&self) -> (well_formed: bool)
        ensures
            well_formed == self@.well_formed(),
    {
        game_is_well_formed(&self.scores.game1) && game_is_well_formed(&self.scores.game2)
            && game_is_well_formed(&self.scores.final_game)
    }
}

} // verus!
