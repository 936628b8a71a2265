use rustcord::card::Card;
use rustcord::fuzzy::{jaro_winkler_ascii_bitmask, jaro_winkler_bytes, winkliest_match, Similarity};

fn as_f32(s: Similarity) -> f32 {
    (s.num as f64 / s.den as f64) as f32
}

fn card(name: &str, normalised: &str) -> Card {
    Card {
        front_name: name.to_string(),
        front_normalised_name: normalised.to_string(),
        front_oracle_id: 1,
        front_scryfall_url: String::new(),
        front_image_id: 2,
        front_illustration_id: None,
        front_mana_cost: String::new(),
        front_colour_identity: vec![],
        front_power: None,
        front_toughness: None,
        front_loyalty: None,
        front_defence: None,
        front_type_line: String::new(),
        front_oracle_text: String::new(),
        back_id: None,
        artist: String::new(),
        set_name: String::new(),
    }
}

#[test]
fn test_jaro_winkler_bitmasl() {
    let a = "CRATE";
    let b = "TRACE";

    let answer = jaro_winkler_ascii_bitmask(a, b);

    assert_eq!(as_f32(answer), 0.73333335);
    // exactly 11/15
    assert_eq!(answer.num * 15, answer.den * 11);
}

#[test]
fn test_winkliest_match() {
    let a = "CRATE";
    let b = vec!["TRACE", "sdasda", "sadasdasd"];

    assert_eq!(winkliest_match(a, b), Some("TRACE"))
}

#[test]
fn test_winkliest_match_none() {
    let a = "CRATE";
    let b: Vec<&str> = vec![];

    assert_eq!(winkliest_match(a, b), None)
}

#[test]
fn identical_strings_score_one() {
    let s = jaro_winkler_ascii_bitmask("lightning bolt", "lightning bolt");
    assert_eq!(s.num, s.den);
    let e = jaro_winkler_ascii_bitmask("", "");
    assert_eq!((e.num, e.den), (1, 1));
}

#[test]
fn nothing_in_common_scores_zero() {
    let s = jaro_winkler_ascii_bitmask("abc", "xyz");
    assert_eq!(s.num, 0);
    let e = jaro_winkler_bytes(b"", b"abc");
    assert_eq!(e.num, 0);
}

#[test]
fn known_scores() {
    // MARTHA / MARHTA: jaro 17/18, prefix 3 -> 0.9611
    let s = jaro_winkler_ascii_bitmask("MARTHA", "MARHTA");
    assert!((as_f32(s) - 0.96111).abs() < 0.0001);
    // DWAYNE / DUANE: jaro 37/45, prefix 1 -> 0.84
    let s = jaro_winkler_ascii_bitmask("DWAYNE", "DUANE");
    assert!((as_f32(s) - 0.84).abs() < 0.0001);
    // DIXON / DICKSONX: 0.8133
    let s = jaro_winkler_ascii_bitmask("DIXON", "DICKSONX");
    assert!((as_f32(s) - 0.81333).abs() < 0.0001);
}

#[test]
fn ties_pick_the_last_best() {
    assert_eq!(winkliest_match("abc", vec!["abd", "abd"]), Some("abd"));
    let picked = winkliest_match("abc", vec![String::from("abx"), String::from("zzz"), String::from("abx")]);
    assert_eq!(picked, Some(String::from("abx")));
}

#[test]
fn exact_normalised_name_wins_among_cards() {
    let cards = vec![
        card("Lightning Bolt", "lightning bolt"),
        card("Lightning Axe", "lightning axe"),
        card("Chain Lightning", "chain lightning"),
    ];
    let best = winkliest_match("lightning axe", cards).unwrap();
    assert_eq!(best.front_name, "Lightning Axe");
}

#[test]
fn closest_set_name_is_chosen() {
    let sets = vec![String::from("Limited Edition Alpha"), String::from("Limited Edition Beta")];
    assert_eq!(
        winkliest_match("limited edition alpha", sets),
        Some(String::from("Limited Edition Alpha"))
    );
}

#[test]
fn exact_name_among_candidates_is_chosen() {
    let heap = vec![
        String::from("lightning helix"),
        String::from("lightning bolt"),
        String::from("lightning axe"),
    ];
    assert_eq!(
        winkliest_match("lightning bolt", heap),
        Some(String::from("lightning bolt"))
    );
}

#[test]
fn long_equal_strings_score_one() {
    let a = "x".repeat(70_000);
    let b = a.clone();
    let s = jaro_winkler_ascii_bitmask(&a, &b);
    assert_eq!((s.num, s.den), (1, 1));
    assert_eq!(winkliest_match(&a, vec![b.clone()]), Some(b));
}

#[test]
fn three_quarters_exactly() {
    let s = jaro_winkler_ascii_bitmask("axc", "acyz");
    assert_eq!(s.num * 4, s.den * 3);
}
