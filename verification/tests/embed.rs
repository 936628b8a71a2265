use rustcord::card::{uuid_to_string, Card};
use rustcord::components::{component_action, component_card_id, flip_button_id, set_dropdown_options, ComponentAction, SearchResultDto};
use rustcord::card::Printing;
use rustcord::embed::{card_rules_text, create_embed, create_game_embed, stats};
use rustcord::emoji::{add_emoji, italicise_reminder_text};
use rustcord::images::Images;
use rustcord::sql::{random_card_from_set_query, search_artist_query, search_set_query};

fn create_test_card() -> Card {
    Card {
        front_name: String::from("Lightning Bolt"),
        front_normalised_name: String::from("lightning bolt"),
        front_scryfall_url: String::from("https://scryfall.com/card/test/1"),
        front_image_id: 0x550e8400_e29b_41d4_a716_446655440000,
        front_oracle_id: 0x550e8400_e29b_41d4_a716_446655440000,
        front_illustration_id: Some(0x550e8400_e29b_41d4_a716_446655440001),
        front_mana_cost: String::from("{R}"),
        front_colour_identity: vec![String::from("R")],
        front_power: None,
        front_toughness: None,
        front_loyalty: None,
        front_defence: None,
        front_type_line: String::from("Instant"),
        front_oracle_text: String::from("Lightning Bolt deals 3 damage to any target."),
        back_id: None,
        artist: String::from("Christopher Rush"),
        set_name: String::from("Alpha"),
    }
}

#[test]
fn uuid_text_is_hyphenated_lower_case() {
    assert_eq!(
        uuid_to_string(0x550e8400_e29b_41d4_a716_446655440000),
        "550e8400-e29b-41d4-a716-446655440000"
    );
    assert_eq!(uuid_to_string(0), "00000000-0000-0000-0000-000000000000");
    assert_eq!(uuid_to_string(u128::MAX), "ffffffff-ffff-ffff-ffff-ffffffffffff");
}

#[test]
fn emoji_table() {
    assert_eq!(add_emoji("{T}"), "<:tap:1341154606524403804>");
    assert_eq!(add_emoji("{2/W}"), "<:2W:1345437870554615840>");
    assert_eq!(add_emoji("{nothing}"), "{nothing}");
    let mut card = create_test_card();
    card.front_type_line = String::from("Land");
    card.front_oracle_text = String::from("{T}: Add {R}.");
    assert_eq!(
        card_rules_text(&card),
        "Land\n\n<:tap:1341154606524403804>: Add <:R_:1345438424160800892>."
    );
    card.front_oracle_text = String::from("no symbols");
    assert_eq!(card_rules_text(&card), "Land\n\nno symbols");
    assert_eq!(
        italicise_reminder_text("Flying (This creature can fly.)"),
        "Flying (*This creature can fly.*)"
    );
}

#[test]
fn full_embed() {
    let card = create_test_card();
    let e = create_embed(&card);
    assert_eq!(e.attachment, "550e8400-e29b-41d4-a716-446655440000.png");
    assert_eq!(e.url, Some("https://scryfall.com/card/test/1".to_string()));
    assert_eq!(e.title, "Lightning Bolt        <:R_:1345438424160800892>");
    assert_eq!(e.description, "Instant\n\nLightning Bolt deals 3 damage to any target.");
    assert_eq!(e.colour.map(|c| (c.r(), c.g(), c.b())), Some((220, 20, 60)));
    assert_eq!(e.footer, "\u{1F58C}\u{FE0F} - Christopher Rush");
}

#[test]
fn game_embed_reveals_progressively() {
    let card = create_test_card();
    let e = create_game_embed(&card, 2, 1);
    assert_eq!(e.title, "????");
    assert_eq!(e.description, "????");
    assert_eq!(e.colour, None);
    assert_eq!(e.attachment, "550e8400-e29b-41d4-a716-446655440001.png");
    let e = create_game_embed(&card, 2, 2);
    assert_eq!(e.title, "????        <:R_:1345438424160800892>");
    assert_eq!(e.description, "????");
    assert!(e.colour.is_some());
    let e = create_game_embed(&card, 2, 3);
    assert_eq!(e.description, "????");
    let e = create_game_embed(&card, 2, 4);
    assert_eq!(e.description, "Instant\n\nLightning Bolt deals 3 damage to any target.");
}

#[test]
fn hard_game_reveals_the_mana_cost_before_it_ends() {
    let card = create_test_card();
    for guesses in 1..3 {
        assert_eq!(create_game_embed(&card, 3, guesses).title, "????");
    }
    let e = create_game_embed(&card, 3, 3);
    assert_eq!(e.title, "????        <:R_:1345438424160800892>");
    assert!(e.colour.is_some());
    assert_eq!(e.description, "????");
}

#[test]
fn card_stats() {
    let mut card = create_test_card();
    assert_eq!(stats(&card), "");
    card.front_power = Some("2".to_string());
    assert_eq!(stats(&card), "\n\n2/0");
    card.front_toughness = Some("3".to_string());
    assert_eq!(stats(&card), "\n\n2/3");
    card.front_power = None;
    card.front_loyalty = Some("4".to_string());
    assert_eq!(stats(&card), "\n\n4");
}

#[test]
fn test_add_printings() {
    let image = Images { front: vec![], back: None };
    let card = create_test_card();
    let similar_cards = vec![create_test_card()];
    let printings = vec![Printing::new(0x550e8400_e29b_41d4_a716_446655440000, String::from("Alpha"))];

    let result = SearchResultDto::new(card, image)
        .add_printings(Some(printings))
        .add_similar_cards(similar_cards);

    assert!(result.similar_cards().is_some());
    let similar_cards = result.similar_cards().unwrap();
    assert_eq!(similar_cards.len(), 1);
    assert_eq!(similar_cards[0].front_name, "Lightning Bolt".to_string());

    assert!(result.printings().is_some());
    let printings = result.printings().unwrap();
    assert_eq!(printings.len(), 1);
    assert_eq!(
        uuid_to_string(*printings[0].card_id()),
        "550e8400-e29b-41d4-a716-446655440000".to_string()
    );
    assert_eq!(printings[0].name().to_string(), "Alpha".to_string());
}

#[test]
fn dropdown_and_flip_button() {
    let one = Some(vec![Printing::new(1, "Alpha".to_string())]);
    assert_eq!(set_dropdown_options(&one), None);
    assert_eq!(set_dropdown_options(&None), None);
    let many: Vec<Printing> = (0..30u128).map(|i| Printing::new(i, format!("Set {i}"))).collect();
    let opts = set_dropdown_options(&Some(many)).unwrap();
    assert_eq!(opts.len(), 25);
    assert_eq!(opts[3].0, "Set 3");
    assert_eq!(opts[3].1, "00000000-0000-0000-0000-000000000003");
    let mut card = create_test_card();
    assert_eq!(flip_button_id(&card), None);
    card.back_id = Some(0xab);
    assert_eq!(flip_button_id(&card), Some("flip:00000000-0000-0000-0000-0000000000ab".to_string()));
    assert_eq!(component_action("pick-print-id"), ComponentAction::PickPrint);
    assert_eq!(component_action("flip:abc"), ComponentAction::Flip("abc".to_string()));
    assert_eq!(component_action("other"), ComponentAction::Ignore);
}

#[test]
fn table_queries() {
    assert_eq!(
        search_set_query("limited edition alpha"),
        "select * from set_limited_edition_alpha where word_similarity(front_normalised_name, $1) > 0.50;"
    );
    assert_eq!(
        search_artist_query("Christopher Rush"),
        "select * from artist_Christopher_Rush where word_similarity(front_normalised_name, $1) > 0.50;"
    );
    assert_eq!(
        random_card_from_set_query("alpha"),
        "select * from set_alpha where front_illustration_id is not null order by random() limit 1;"
    );
}

#[test]
fn component_card_ids() {
    let id = "550e8400-e29b-41d4-a716-446655440000";
    assert_eq!(
        component_card_id("pick-print-id", Some(String::from(id))),
        Some(0x550e8400_e29b_41d4_a716_446655440000)
    );
    assert_eq!(component_card_id("pick-print-id", None), None);
    assert_eq!(component_card_id("pick-print-id", Some(String::from("nope"))), None);
    assert_eq!(
        component_card_id("flip:550e8400-e29b-41d4-a716-446655440002", None),
        Some(0x550e8400_e29b_41d4_a716_446655440002)
    );
    assert_eq!(component_card_id("flip:not-a-uuid", None), None);
    assert_eq!(component_card_id("something-else", Some(String::from(id))), None);
}

#[test]
fn reminder_text_by_line() {
    assert_eq!(
        italicise_reminder_text("Fly (a) b (c)\nx (y)"),
        "Fly (*a) b (c*)\nx (*y*)"
    );
    assert_eq!(italicise_reminder_text("()a"), "()a");
    assert_eq!(italicise_reminder_text("no parentheses"), "no parentheses");
}
