use rustcord::colours::{get_colour_identity, get_colour_num};

#[test]
fn test_mono_red_colour() {
    let colour = get_colour_identity(&vec!["R".to_string()]);
    assert_eq!(colour.r(), 220);
    assert_eq!(colour.g(), 20);
    assert_eq!(colour.b(), 60);
}

#[test]
fn test_mono_blue_colour() {
    let colour = get_colour_identity(&vec!["U".to_string()]);
    assert_eq!(colour.r(), 0x04);
    assert_eq!(colour.g(), 0x92);
    assert_eq!(colour.b(), 0xC2);
}

#[test]
fn test_azorius_colours() {
    // White-Blue (Azorius)
    let colour = get_colour_identity(&vec!["U".to_string(), "W".to_string()]);
    assert_eq!(colour.r(), 0x95);
    assert_eq!(colour.g(), 0xB9);
    assert_eq!(colour.b(), 0xDB);
}

#[test]
fn test_golgari_colours() {
    // Black-Green (Golgari)
    let colour = get_colour_identity(&vec!["B".to_string(), "G".to_string()]);
    assert_eq!(colour.r(), 0x06);
    assert_eq!(colour.g(), 0x40);
    assert_eq!(colour.b(), 0x2B);
}

#[test]
fn test_five_colour_card() {
    // WUBRG (all five colors)
    let colour = get_colour_identity(&vec![
        "B".to_string(),
        "G".to_string(),
        "R".to_string(),
        "U".to_string(),
        "W".to_string(),
    ]);
    // Should be white (all colors)
    assert_eq!(colour.r(), 0xFF);
    assert_eq!(colour.g(), 0xFF);
    assert_eq!(colour.b(), 0xFF);
}

#[test]
fn test_colorless_card() {
    let colour = get_colour_identity(&vec![]);
    // Should be gray (colorless)
    assert_eq!(colour.r(), 0xA9);
    assert_eq!(colour.g(), 0xA9);
    assert_eq!(colour.b(), 0xA9);
}

#[test]
fn test_unknown_colour_combination() {
    // Test that unknown combinations get the gold/multicolor default
    let colour = get_colour_identity(&vec!["X".to_string(), "Y".to_string()]);
    assert_eq!(colour.r(), 0xF9);
    assert_eq!(colour.g(), 0xC7);
    assert_eq!(colour.b(), 0x4F);
}

#[test]
fn test_bant_colours() {
    // White-Blue-Green (Bant)
    let colour = get_colour_identity(&vec!["G".to_string(), "U".to_string(), "W".to_string()]);
    assert_eq!(colour.r(), 0x81);
    assert_eq!(colour.g(), 0xFF);
    assert_eq!(colour.b(), 0xFF);
}

#[test]
fn test_colour_identity_joins_correctly() {
    // Test that the join operation works as expected
    let single = get_colour_identity(&vec!["R".to_string()]);
    let double = get_colour_identity(&vec!["G".to_string(), "R".to_string()]);

    // Single should be mono-red
    assert_eq!(single.r(), 220);

    // Double should be Gruul
    assert_eq!(double.r(), 0x89);
}

#[test]
fn colour_table_entries() {
    assert_eq!(get_colour_num("BGRUW"), (0xFF, 0xFF, 0xFF));
    assert_eq!(get_colour_num("RW"), (0xD9, 0x54, 0x4D));
    // the table is written in alphabetical order; another order is gold
    assert_eq!(get_colour_num("WR"), (0xF9, 0xC7, 0x4F));
}
