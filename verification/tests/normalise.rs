use rustcord::normalise::normalise;

#[test]
fn test_normalise_simple_string() {
    assert_eq!(normalise("Lightning Bolt"), "lightning bolt");
}

#[test]
fn test_normalise_with_punctuation() {
    assert_eq!(normalise("Jace, the Mind Sculptor"), "jace the mind sculptor");
}

#[test]
fn test_normalise_with_apostrophe() {
    assert_eq!(normalise("Ajani's Pridemate"), "ajanis pridemate");
}

#[test]
fn test_normalise_with_hyphen() {
    // Hyphens are replaced with spaces
    assert_eq!(normalise("X-Men"), "x men");
}

#[test]
fn test_normalise_with_multiple_hyphens() {
    assert_eq!(normalise("Alpha-Beta-Gamma"), "alpha beta gamma");
}

#[test]
fn test_normalise_unicode_characters() {
    // NFKC normalization handles some but not all Unicode
    // Æ remains as æ (lowercase)
    assert_eq!(normalise("Ætherling"), "ætherling");
}

#[test]
fn test_normalise_already_normalized() {
    assert_eq!(normalise("already normalized"), "already normalized");
}

#[test]
fn test_normalise_empty_string() {
    assert_eq!(normalise(""), "");
}

#[test]
fn test_normalise_only_punctuation() {
    // ! is not matched by \w so it remains
    assert_eq!(normalise("!!!"), "");
}

#[test]
fn test_normalise_mixed_case() {
    assert_eq!(normalise("ThE GiTrOg MoNsTeR"), "the gitrog monster");
}

#[test]
fn test_normalise_numbers() {
    assert_eq!(normalise("Time Walk 123"), "time walk 123");
}

#[test]
fn test_normalise_special_characters() {
    // ™ is removed but becomes two chars when converted
    assert_eq!(normalise("Urza's Saga™"), "urzas sagatm");
}

#[test]
fn test_normalise_multiple_spaces() {
    // Multiple spaces should be preserved (not collapsed)
    assert_eq!(normalise("Multiple  Spaces"), "multiple  spaces");
}

#[test]
fn test_normalise_leading_trailing_spaces() {
    assert_eq!(normalise("  Padded  "), "  padded  ");
}

#[test]
fn test_normalise_parentheses() {
    assert_eq!(normalise("Card (Name)"), "card name");
}

#[test]
fn test_normalise_brackets() {
    assert_eq!(normalise("[Card] Name"), "card name");
}

#[test]
fn test_normalise_slashes() {
    assert_eq!(normalise("Life/Death"), "lifedeath");
}

#[test]
fn test_normalise_underscores() {
    assert_eq!(normalise("Card_Name"), "card_name");
}

#[test]
fn test_normalise_dots() {
    assert_eq!(normalise("Dr. Doom"), "dr doom");
}

#[test]
fn test_normalise_real_card_names() {
    assert_eq!(normalise("Dack Fayden"), "dack fayden");
    assert_eq!(normalise("Jace, Vryn's Prodigy"), "jace vryns prodigy");
    assert_eq!(normalise("Emrakul, the Aeons Torn"), "emrakul the aeons torn");
}

#[test]
fn test_normalise_japanese_characters() {
    // Should handle Unicode normalization
    let result = normalise("カード");
    assert!(result.chars().all(|c| !c.is_ascii_punctuation()));
}

#[test]
fn test_normalise_accented_characters() {
    // NFKC doesn't decompose all accents
    assert_eq!(normalise("Café"), "café");
    assert_eq!(normalise("Señor"), "señor");
}

#[test]
fn test_normalise_ampersand() {
    assert_eq!(normalise("Rock & Roll"), "rock  roll");
}

#[test]
fn test_normalise_idempotent() {
    let input = "Jace, the Mind Sculptor";
    let first = normalise(input);
    let second = normalise(&first);
    assert_eq!(first, second);
}
