use trip_planner::compose::create_json_response;

#[test]
fn envelope_plain() {
    assert_eq!(
        create_json_response("some text", "abfksjdf"),
        "{\"itinerary\":\"some text\",\"tag\":\"abfksjdf\"}"
    );
}

#[test]
fn envelope_escapes_quotes_and_backslashes() {
    assert_eq!(
        create_json_response("he said \"hi\" \\ bye", "t"),
        "{\"itinerary\":\"he said \\\"hi\\\" \\\\ bye\",\"tag\":\"t\"}"
    );
}

#[test]
fn envelope_escapes_controls() {
    assert_eq!(
        create_json_response("a\nb\tc\rd\u{8}e\u{c}f\u{1}g\u{1f}h", "t"),
        "{\"itinerary\":\"a\\nb\\tc\\rd\\be\\ff\\u0001g\\u001fh\",\"tag\":\"t\"}"
    );
}

#[test]
fn envelope_passes_unicode_through() {
    assert_eq!(
        create_json_response("Mäui ☀ 東京", "t"),
        "{\"itinerary\":\"Mäui ☀ 東京\",\"tag\":\"t\"}"
    );
}

// The composer must produce byte-for-byte what the JSON serializer the rest
// of the world uses would produce for the same envelope.
#[test]
fn envelope_matches_reference_serializer() {
    let cases = [
        ("plain text", "abfksjdf"),
        ("quotes \" and \\ slashes", "t"),
        ("controls \u{0}\u{1}\u{8}\u{9}\u{a}\u{c}\u{d}\u{1f}", "t"),
        ("unicode Mäui ☀ 東京 🌋", "t"),
        ("", ""),
    ];
    for (itinerary, tag) in cases {
        let mut map = serde_json::Map::new();
        map.insert(
            "itinerary".to_string(),
            serde_json::Value::String(itinerary.to_string()),
        );
        map.insert("tag".to_string(), serde_json::Value::String(tag.to_string()));
        let expected = serde_json::to_string(&serde_json::Value::Object(map)).unwrap();
        assert_eq!(create_json_response(itinerary, tag), expected);
    }
}
