use snake_game::score::{parse_high_score, ScoreManager};
use snake_game::state::AppState;

#[test]
fn parse_plain_number() {
    assert_eq!(parse_high_score(&b"42".to_vec()), Some(42));
    assert_eq!(parse_high_score(&b"0".to_vec()), Some(0));
    assert_eq!(parse_high_score(&b"+17".to_vec()), Some(17));
    assert_eq!(parse_high_score(&b"007".to_vec()), Some(7));
    assert_eq!(parse_high_score(&b"4294967295".to_vec()), Some(u32::MAX));
}

#[test]
fn parse_rejects_what_is_not_a_number() {
    assert_eq!(parse_high_score(&b"".to_vec()), None);
    assert_eq!(parse_high_score(&b"+".to_vec()), None);
    assert_eq!(parse_high_score(&b"-3".to_vec()), None);
    assert_eq!(parse_high_score(&b"12a".to_vec()), None);
    assert_eq!(parse_high_score(&b" 12".to_vec()), None);
    assert_eq!(parse_high_score(&b"12\n".to_vec()), None);
    assert_eq!(parse_high_score(&b"4294967296".to_vec()), None);
    assert_eq!(parse_high_score(&b"99999999999999999999".to_vec()), None);
}

#[test]
fn parse_agrees_with_std() {
    for text in ["1", "65535", "+0", "", "+", "x", "4294967295", "4294967296", "-1", "1 "] {
        assert_eq!(parse_high_score(&text.as_bytes().to_vec()), text.parse::<u32>().ok());
    }
}

#[test]
fn saved_text_sets_high_score() {
    let scores = ScoreManager::from_saved(&b"120".to_vec());
    assert_eq!(scores, ScoreManager { score: 0, high_score: 120 });
    let broken = ScoreManager::from_saved(&b"abc".to_vec());
    assert_eq!(broken, ScoreManager { score: 0, high_score: 0 });
}

#[test]
fn sync_keeps_the_best_and_clears_the_score() {
    let mut scores = ScoreManager::new(10);
    scores.add_point();
    scores.add_point();
    assert_eq!(scores.score, 2);
    scores.sync();
    assert_eq!(scores, ScoreManager { score: 0, high_score: 10 });
    scores.score = 11;
    scores.sync();
    assert_eq!(scores, ScoreManager { score: 0, high_score: 11 });
}

#[test]
fn score_saturates() {
    let mut scores = ScoreManager { score: u32::MAX, high_score: 0 };
    scores.add_point();
    assert_eq!(scores.score, u32::MAX);
}

#[test]
fn screen_titles() {
    assert_eq!(AppState::StartScreen.title(), "Snake");
    assert_eq!(AppState::LoseScreen.title(), "Game Over");
    assert_eq!(AppState::WinScreen.title(), "You Win");
    assert_eq!(AppState::StartScreen.play_button_title(), "Play");
    assert_eq!(AppState::LoseScreen.play_button_title(), "Play again");
    assert_eq!(AppState::WinScreen.play_button_title(), "Play again");
    assert_eq!(AppState::default(), AppState::StartScreen);
}
