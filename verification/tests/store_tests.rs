use score_hub::snapshot::{ParticipantScore, ScoreData, Scores};
use score_hub::store::ScoreStore;

fn snapshot(phase: &str, score: u32) -> ScoreData {
    ScoreData {
        phase: phase.to_string(),
        scores: Scores {
            game1: Some(vec![ParticipantScore { participant: "A".to_string(), score }]),
            game2: None,
            final_game: Some(vec![]),
        },
    }
}

#[test]
fn new_store_reads_none() {
    let store = ScoreStore::new();
    assert_eq!(store.read(), None);
}

#[test]
fn read_returns_what_was_replaced() {
    let mut store = ScoreStore::new();
    store.replace(snapshot("semi", 3));
    assert_eq!(store.read(), Some(snapshot("semi", 3)));
    // reading does not take the snapshot away
    assert_eq!(store.read(), Some(snapshot("semi", 3)));
}

#[test]
fn last_replace_wins() {
    let mut store = ScoreStore::new();
    for k in 1..=20u32 {
        store.replace(snapshot("semi", k));
    }
    store.replace(snapshot("final", 7));
    assert_eq!(store.read(), Some(snapshot("final", 7)));
}

#[test]
fn snapshot_clone_is_equal_in_every_part() {
    let original = ScoreData {
        phase: "final".to_string(),
        scores: Scores {
            game1: Some(vec![
                ParticipantScore { participant: "A".to_string(), score: 10 },
                ParticipantScore { participant: "B".to_string(), score: 8 },
            ]),
            game2: Some(vec![]),
            final_game: None,
        },
    };
    let copy = original.clone();
    assert_eq!(copy, original);
    assert_eq!(copy.scores.game1.as_ref().map(|g| g.len()), Some(2));
    assert_eq!(copy.scores.game1.as_ref().unwrap()[1].participant, "B");
    assert_eq!(copy.scores.game1.as_ref().unwrap()[1].score, 8);
    assert_eq!(copy.scores.game2, Some(vec![]));
    assert_eq!(copy.scores.final_game, None);
}

#[test]
fn snapshot_without_repeats_is_well_formed() {
    assert!(snapshot("semi", 1).is_well_formed());
    let empty = ScoreData {
        phase: String::new(),
        scores: Scores { game1: None, game2: None, final_game: None },
    };
    assert!(empty.is_well_formed());
    // the same participant may play in several games
    let several = ScoreData {
        phase: "semi".to_string(),
        scores: Scores {
            game1: Some(vec![ParticipantScore { participant: "A".to_string(), score: 1 }]),
            game2: Some(vec![ParticipantScore { participant: "A".to_string(), score: 2 }]),
            final_game: Some(vec![ParticipantScore { participant: "A".to_string(), score: 3 }]),
        },
    };
    assert!(several.is_well_formed());
}

fn entries(names: &[&str]) -> Option<Vec<ParticipantScore>> {
    Some(names.iter().map(|n| ParticipantScore { participant: n.to_string(), score: 1 }).collect())
}

#[test]
fn repeated_participant_is_malformed_in_any_game() {
    let in_game1 = ScoreData {
        phase: "semi".to_string(),
        scores: Scores { game1: entries(&["A", "B", "A"]), game2: None, final_game: None },
    };
    assert!(!in_game1.is_well_formed());
    let in_game2 = ScoreData {
        phase: "semi".to_string(),
        scores: Scores { game1: entries(&["A", "B"]), game2: entries(&["C", "C"]), final_game: None },
    };
    assert!(!in_game2.is_well_formed());
    let in_final = ScoreData {
        phase: "final".to_string(),
        scores: Scores { game1: None, game2: None, final_game: entries(&["X", "Y", "Z", "Y"]) },
    };
    assert!(!in_final.is_well_formed());
}

#[test]
fn participants_are_told_apart_letter_by_letter() {
    let close = ScoreData {
        phase: "semi".to_string(),
        scores: Scores { game1: entries(&["A", "a", "A ", ""]), game2: None, final_game: None },
    };
    assert!(close.is_well_formed());
}
