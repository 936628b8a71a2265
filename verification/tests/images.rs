use rustcord::card::Card;
use rustcord::images::{
    init_image_store, missing_illustration_error, CacheError, FileSystem, ImageRetrievalError, Images,
    MessageInterationError,
};

fn create_test_card_single_face() -> Card {
    Card {
        front_name: String::from("Test Card"),
        front_normalised_name: String::from("test card"),
        front_scryfall_url: String::from("https://scryfall.com/card/test/1"),
        front_image_id: 0x550e8400_e29b_41d4_a716_446655440000,
        front_oracle_id: 0x550e8400_e29b_41d4_a716_446655440000,
        front_illustration_id: Some(0x550e8400_e29b_41d4_a716_446655440001),
        front_mana_cost: String::from("{1}{U}"),
        front_colour_identity: vec![String::from("U")],
        front_power: Some(String::from("2")),
        front_toughness: Some(String::from("2")),
        front_loyalty: None,
        front_defence: None,
        front_type_line: String::from("Creature - Test"),
        front_oracle_text: String::from("Test ability"),
        artist: String::from("Test Artist"),
        set_name: String::from("Test Set"),
        back_id: None,
    }
}

#[test]
fn test_images_struct_single_face() {
    let front_data = vec![1, 2, 3, 4];
    let images = Images {
        front: front_data.clone(),
        back: None,
    };
    assert_eq!(images.front, front_data);
    assert!(images.back.is_none());
}

#[test]
fn test_images_struct_double_face() {
    let front_data = vec![1, 2, 3, 4];
    let back_data = vec![5, 6, 7, 8];
    let images = Images {
        front: front_data.clone(),
        back: Some(back_data.clone()),
    };
    assert_eq!(images.front, front_data);
    assert_eq!(images.back, Some(back_data));
}

#[test]
fn test_image_retrieval_error_display() {
    let error = ImageRetrievalError::new(String::from("Test error message"));
    assert_eq!(error.to_string(), "Error Retrieving Image");
}

#[test]
fn test_image_retrieval_error_debug() {
    let error = ImageRetrievalError::new(String::from("Test error message"));
    let debug_str = format!("{:?}", error);
    assert!(debug_str.contains("ImageRetrievalError"));
}

#[test]
fn test_cache_error_display() {
    let error = CacheError::new(String::from("Test error"));
    assert_eq!(error.to_string(), "Error in cache operation");
}

#[test]
fn test_cache_error_debug() {
    let error = CacheError::new(String::from("Test error"));
    let debug_str = format!("{:?}", error);
    assert!(debug_str.contains("CacheError"));
}

#[test]
fn message_error_display() {
    let error = MessageInterationError::new(String::from("x"));
    assert_eq!(error.to_string(), "An error occurred while processing a message");
    assert_eq!(error.message(), "x");
}

#[test]
fn test_fetch_illustration_no_illustration_id() {
    let mut card = create_test_card_single_face();
    card.front_illustration_id = None;
    assert!(card.front_illustration_id().is_none());
    let store = FileSystem::new("/data");
    let err = store.illustration_path(&card).unwrap_err();
    assert_eq!(err.message(), "Card had no illustration id");
}

#[test]
fn image_and_illustration_paths() {
    let card = create_test_card_single_face();
    let store = init_image_store("/data");
    assert_eq!(
        store.image_path(&card),
        "/data/images/550e8400-e29b-41d4-a716-446655440000.png"
    );
    assert_eq!(
        store.illustration_path(&card).unwrap(),
        "/data/illustrations/550e8400-e29b-41d4-a716-446655440001.png"
    );
    assert_eq!(missing_illustration_error(&card).message(), "No illustration found for Test Card");
}

#[test]
fn test_card_helpers_single_face() {
    let card = create_test_card_single_face();
    let front_id = card.image_id();
    let back_id = card.back_id();

    assert_eq!(*front_id, 0x550e8400_e29b_41d4_a716_446655440000);
    assert!(back_id.is_none());
}
