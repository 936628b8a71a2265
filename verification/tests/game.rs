use rustcord::card::Card;
use rustcord::game::{
    failed_message, is_correct_guess, new_game_message, plan_guess, set_lookup, set_not_found_message,
    win_message, wrong_guess_message, Difficulty, GameState, GuessOptions, GuessPlan, PlayOptions,
    SetLookup,
};

fn create_test_card() -> Card {
    Card {
        front_name: "Lightning Bolt".to_string(),
        front_normalised_name: "lightning bolt".to_string(),
        front_oracle_id: 0x12345678_1234_1234_1234_123456789011,
        front_scryfall_url: "https://scryfall.com/card/test".to_string(),
        front_image_id: 0x12345678_1234_1234_1234_123456789012,
        front_illustration_id: Some(0x12345678_1234_1234_1234_123456789013),
        front_mana_cost: "{R}".to_string(),
        front_colour_identity: vec!["R".to_string()],
        front_power: None,
        front_toughness: None,
        front_loyalty: None,
        front_defence: None,
        front_type_line: "Instant".to_string(),
        front_oracle_text: "Lightning Bolt deals 3 damage to any target.".to_string(),
        back_id: None,
        artist: "Christopher Rush".to_string(),
        set_name: "Limited Edition Alpha".to_string(),
    }
}

#[test]
fn test_difficulty_display() {
    assert_eq!(Difficulty::Easy.to_string(), "Easy");
    assert_eq!(Difficulty::Medium.to_string(), "Medium");
    assert_eq!(Difficulty::Hard.to_string(), "Hard");
}

#[test]
fn test_game_state_creation() {
    let card = create_test_card();
    let state = GameState::from(card, Difficulty::Medium);

    assert_eq!(state.number_of_guesses(), 0);
    assert_eq!(state.max_guesses(), 6);
    assert_eq!(state.multiplier(), 2);
}

#[test]
fn test_game_state_easy_difficulty() {
    let card = create_test_card();
    let state = GameState::from(card, Difficulty::Easy);

    assert_eq!(state.max_guesses(), 8);
    assert_eq!(state.multiplier(), 1);
}

#[test]
fn test_game_state_medium_difficulty() {
    let card = create_test_card();
    let state = GameState::from(card, Difficulty::Medium);

    assert_eq!(state.max_guesses(), 6);
    assert_eq!(state.multiplier(), 2);
}

#[test]
fn test_game_state_hard_difficulty() {
    let card = create_test_card();
    let state = GameState::from(card, Difficulty::Hard);

    assert_eq!(state.max_guesses(), 4);
    assert_eq!(state.multiplier(), 3);
}

#[test]
fn test_add_guess() {
    let card = create_test_card();
    let mut state = GameState::from(card, Difficulty::Medium);

    assert_eq!(state.number_of_guesses(), 0);

    state.add_guess();
    assert_eq!(state.number_of_guesses(), 1);

    state.add_guess();
    assert_eq!(state.number_of_guesses(), 2);
}

#[test]
fn test_guesses_alias() {
    let card = create_test_card();
    let mut state = GameState::from(card, Difficulty::Easy);

    assert_eq!(state.guesses(), state.number_of_guesses());

    state.add_guess();
    assert_eq!(state.guesses(), state.number_of_guesses());
    assert_eq!(state.guesses(), 1);
}

#[test]
fn test_game_state_at_max_guesses() {
    let card = create_test_card();
    let mut state = GameState::from(card, Difficulty::Hard);

    for _ in 0..4 {
        state.add_guess();
    }

    assert_eq!(state.number_of_guesses(), state.max_guesses());
}

#[test]
fn test_game_state_beyond_max_guesses() {
    let card = create_test_card();
    let mut state = GameState::from(card, Difficulty::Hard);

    for _ in 0..10 {
        state.add_guess();
    }

    assert!(state.number_of_guesses() > state.max_guesses());
    assert_eq!(state.number_of_guesses(), 10);
}

#[test]
fn test_card_access() {
    let card = create_test_card();
    let state = GameState::from(card.clone(), Difficulty::Medium);

    assert_eq!(state.card().front_name, "Lightning Bolt");
    assert_eq!(state.card().front_normalised_name, "lightning bolt");
}

#[test]
fn test_difficulty_access() {
    let card = create_test_card();
    let state = GameState::from(card, Difficulty::Hard);

    match state.difficulty() {
        Difficulty::Hard => {}
        _ => panic!("Expected Hard difficulty"),
    }
}

#[test]
fn test_guess_options_creation() {
    let options = GuessOptions::new("Test Guess".to_string());
    assert_eq!(options.guess(), "Test Guess");
}

#[test]
fn test_play_options_creation() {
    let options = PlayOptions::new(Some("LEA".to_string()), Difficulty::Easy);
    assert_eq!(options.set(), &Some("LEA".to_string()));
}

#[test]
fn test_play_options_no_set() {
    let options = PlayOptions::new(None, Difficulty::Medium);
    assert_eq!(options.set(), &None);
}

fn plan(state: GameState, guess: &str) -> GuessPlan {
    plan_guess(Some(state), guess.to_string())
}

#[test]
fn test_guess_correct_wins_game() {
    let state = GameState::from(create_test_card(), Difficulty::Medium);
    match plan(state, "Lightning Bolt") {
        GuessPlan::Won(s) => assert_eq!(s.number_of_guesses(), 1),
        _ => panic!("expected a win"),
    }
}

#[test]
fn test_guess_with_typo_still_wins() {
    let state = GameState::from(create_test_card(), Difficulty::Easy);
    assert!(matches!(plan(state, "Lightningg Boltt"), GuessPlan::Won(_)));
}

#[test]
fn test_guess_incorrect_continues_game() {
    let state = GameState::from(create_test_card(), Difficulty::Medium);
    match plan(state, "Shock") {
        GuessPlan::Wrong(s, guess) => {
            assert_eq!(s.number_of_guesses(), 1);
            assert_eq!(guess, "Shock");
        }
        _ => panic!("expected a wrong guess"),
    }
}

#[test]
fn test_guess_max_guesses_fails_game() {
    let mut state = GameState::from(create_test_card(), Difficulty::Hard);
    for _ in 0..3 {
        state.add_guess();
    }
    match plan(state, "Shock") {
        GuessPlan::Lost(s) => assert_eq!(s.number_of_guesses(), 4),
        _ => panic!("expected a loss"),
    }
}

#[test]
fn test_guess_no_game_found() {
    assert!(matches!(plan_guess(None, "Lightning Bolt".to_string()), GuessPlan::NoGame));
}

#[test]
fn test_guess_threshold_exactly_075_wins() {
    let state = GameState::from(create_test_card(), Difficulty::Easy);
    assert!(matches!(plan(state, "lightning bol"), GuessPlan::Won(_)));
}

#[test]
fn test_guess_case_insensitive() {
    let state = GameState::from(create_test_card(), Difficulty::Medium);
    assert!(matches!(plan(state, "LIGHTNING BOLT"), GuessPlan::Won(_)));
}

#[test]
fn far_guess_is_not_correct() {
    let card = create_test_card();
    assert!(!is_correct_guess("Counterspell", &card));
    assert!(is_correct_guess("lightning-bolt", &card));
}

#[test]
fn messages() {
    let mut state = GameState::from(create_test_card(), Difficulty::Medium);
    state.add_guess();
    assert_eq!(win_message(&state), " has won after 1 guess!");
    state.add_guess();
    assert_eq!(failed_message(&state), "You have all failed after 2 guesses!");
    assert_eq!(
        wrong_guess_message(&state, "Shock"),
        "'Shock' was not the correct card. You have 4 guesses remaining"
    );
    for _ in 0..3 {
        state.add_guess();
    }
    assert_eq!(
        wrong_guess_message(&state, "Shock"),
        "'Shock' was not the correct card. You have 1 guess remaining"
    );
    assert_eq!(
        new_game_message(&state),
        "Difficulty is set to `Medium`. This card is from `Limited Edition Alpha`"
    );
    let hard = GameState::from(create_test_card(), Difficulty::Hard);
    assert_eq!(new_game_message(&hard), "Difficulty is set to `Hard`.");
    assert_eq!(set_not_found_message("XYZ"), "Could not find set 'XYZ'");
}

#[test]
fn test_play_set_abbreviation_boundary() {
    assert_eq!(set_lookup("LEA"), SetLookup::Abbreviation("LEA".to_string()));
    assert_eq!(set_lookup("LEA1"), SetLookup::Abbreviation("LEA1".to_string()));
    assert_eq!(
        set_lookup("Limited Edition Alpha"),
        SetLookup::Name("limited edition alpha".to_string())
    );
    let options = PlayOptions::new(Some("LEA1".to_string()), Difficulty::Medium);
    assert_eq!(options.set_lookup(), Some(SetLookup::Abbreviation("LEA1".to_string())));
    assert_eq!(PlayOptions::new(None, Difficulty::Medium).set_lookup(), None);
}

#[test]
fn difficulty_names() {
    assert_eq!(Difficulty::from_name("Hard"), Some(Difficulty::Hard));
    assert_eq!(Difficulty::from_name("hard"), None);
}

#[test]
fn stored_parts_round_trip() {
    let mut state = GameState::from(create_test_card(), Difficulty::Hard);
    state.add_guess();
    state.add_guess();
    let (card, difficulty, guesses) = state.into_parts();
    let back = GameState::from_parts(card, difficulty, guesses);
    assert_eq!(back.number_of_guesses(), 2);
    assert_eq!(back.max_guesses(), 4);
    assert_eq!(back.multiplier(), 3);
    assert_eq!(back.card().front_name, "Lightning Bolt");
}

#[test]
fn game_embed_reveals_more_as_guesses_go_wrong() {
    let mut state = GameState::from(create_test_card(), Difficulty::Medium);
    let e = state.to_embed();
    assert_eq!(e.attachment, "12345678-1234-1234-1234-123456789013.png");
    assert_eq!(e.title, "????");
    assert_eq!(e.description, "????");
    assert!(e.colour.is_none());
    assert_eq!(e.url, None);

    for _ in 0..3 {
        state.add_guess();
    }
    let e = state.to_embed();
    assert_eq!(e.title, "????        <:R_:1345438424160800892>");
    assert_eq!(e.description, "????");
    assert!(e.colour.is_some());

    for _ in 0..2 {
        state.add_guess();
    }
    let e = state.to_embed();
    assert_eq!(e.description, "Instant\n\nLightning Bolt deals 3 damage to any target.");

    let full = state.convert_to_embed();
    assert_eq!(full.title, "Lightning Bolt        <:R_:1345438424160800892>");
    assert_eq!(full.attachment, "12345678-1234-1234-1234-123456789012.png");
}

#[test]
fn long_exact_guess_is_correct() {
    let mut card = create_test_card();
    card.front_normalised_name = "a".repeat(70_000);
    assert!(is_correct_guess(&"A".repeat(70_000), &card));
    assert!(!is_correct_guess(&"b".repeat(70_000), &card));
}

#[test]
fn score_of_exactly_three_quarters_wins() {
    let mut card = create_test_card();
    card.front_normalised_name = String::from("acyz");
    assert!(is_correct_guess("axc", &card));
}
