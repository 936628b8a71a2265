use rustcord::game::Difficulty;
use rustcord::query::{
    message_queries, resolve_guess_options, resolve_play_options, resolve_query_params, search_route,
    OptionValue, QueryParams, SearchRoute,
};

fn text(name: &str, value: &str) -> (String, OptionValue) {
    (name.to_string(), OptionValue::Text(value.to_string()))
}

#[test]
fn play_options_default_to_medium() {
    let options = resolve_play_options(vec![]).unwrap();
    assert_eq!(options.difficulty(), Difficulty::Medium);
    assert_eq!(options.set(), &None);
}

#[test]
fn play_options_read_set_and_difficulty() {
    let options = resolve_play_options(vec![text("set", "LEA"), text("difficulty", "Hard")]).unwrap();
    assert_eq!(options.difficulty(), Difficulty::Hard);
    assert_eq!(options.set(), &Some("LEA".to_string()));
}

#[test]
fn play_options_errors() {
    let err = resolve_play_options(vec![text("difficulty", "Impossible")]).err().unwrap();
    assert_eq!(err.message(), "Could not parse Impossible into difficulty");
    let err = resolve_play_options(vec![("set".to_string(), OptionValue::Other)]).err().unwrap();
    assert_eq!(err.message(), "set ResolvedValue was not a string");
    let err = resolve_play_options(vec![("difficulty".to_string(), OptionValue::Other)]).err().unwrap();
    assert_eq!(err.message(), "difficulty ResolvedValue was not a string");
}

#[test]
fn query_options_split_set_code_and_name() {
    let q = resolve_query_params(vec![text("name", "Lightning Bolt"), text("set", "LEA")]).unwrap();
    assert_eq!(q.name(), "lightning bolt");
    assert_eq!(q.set_code(), Some(&"LEA".to_string()));
    assert_eq!(q.set_name(), None);
    let q = resolve_query_params(vec![
        text("name", "Lightning Bolt"),
        text("set", "Limited Edition Alpha"),
        text("artist", "Christopher Rush"),
    ])
    .unwrap();
    assert_eq!(q.set_code(), None);
    assert_eq!(q.set_name(), Some(&"limited edition alpha".to_string()));
    assert_eq!(q.artist(), Some(&"Christopher Rush".to_string()));
}

#[test]
fn query_options_errors() {
    let err = resolve_query_params(vec![text("set", "LEA")]).err().unwrap();
    assert_eq!(err.message(), "No name found in query params");
    let err = resolve_query_params(vec![("name".to_string(), OptionValue::Other)]).err().unwrap();
    assert_eq!(err.message(), "Name was not a string");
    let err = resolve_query_params(vec![text("name", "x"), ("artist".to_string(), OptionValue::Other)])
        .err()
        .unwrap();
    assert_eq!(err.message(), "Artist was not a string");
}

#[test]
fn guess_options_take_the_first_text() {
    let g = resolve_guess_options(vec![text("card", "Shock")]).unwrap();
    assert_eq!(g.guess(), "Shock");
    let err = resolve_guess_options(vec![]).err().unwrap();
    assert_eq!(err.message(), "Could not get first option");
    let err = resolve_guess_options(vec![("card".to_string(), OptionValue::Other)]).err().unwrap();
    assert_eq!(err.message(), "ResolvedValue was not a string");
}

#[test]
fn test_parse_message_single_card() {
    let queries = message_queries("Check out [[Lightning Bolt]]!");
    assert_eq!(queries.len(), 1);
    assert_eq!(queries[0].name(), "lightning bolt");
    assert_eq!(search_route(&queries[0]), SearchRoute::Distinct);
}

#[test]
fn test_parse_message_multiple_cards() {
    let queries = message_queries("I love [[Lightning Bolt]] and [[Giant Growth]]!");
    assert_eq!(queries.len(), 2);
    assert_eq!(queries[0].name(), "lightning bolt");
    assert_eq!(queries[1].name(), "giant growth");
}

#[test]
fn test_parse_message_no_cards() {
    assert_eq!(message_queries("This message has no card references").len(), 0);
}

#[test]
fn message_references_with_set_and_artist() {
    let queries = message_queries("[[lightning bolt | set=m11]] and [[relentless rats | artist=thomas m baxa]]");
    assert_eq!(queries.len(), 2);
    assert_eq!(queries[0].name(), "lightning bolt");
    assert_eq!(queries[0].set_code(), Some(&"m11".to_string()));
    assert_eq!(queries[1].name(), "relentless rats");
    assert_eq!(queries[1].artist(), Some(&"thomas m baxa".to_string()));
    let queries = message_queries("[[gitrog monster | set=shadows over innistrad]]");
    assert_eq!(queries[0].set_name(), Some(&"shadows over innistrad".to_string()));
    assert_eq!(
        search_route(&queries[0]),
        SearchRoute::SetName("shadows over innistrad".to_string())
    );
}

#[test]
fn search_routes() {
    let q = QueryParams::from_test("lightning bolt".to_string(), None, None, Some("LEA".to_string()));
    assert_eq!(search_route(&q), SearchRoute::SetCode("LEA".to_string()));
    let q = QueryParams::from_test(
        "lightning bolt".to_string(),
        Some("Christopher Rush".to_string()),
        None,
        None,
    );
    assert_eq!(search_route(&q), SearchRoute::Artist("Christopher Rush".to_string()));
    let q = QueryParams::from_test(
        "lightning bolt".to_string(),
        None,
        Some("limited edition alpha".to_string()),
        None,
    );
    assert_eq!(search_route(&q), SearchRoute::SetName("limited edition alpha".to_string()));
}
