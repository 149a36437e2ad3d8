use trip_planner::parse::parse_request;

const GOOD_BODY: &[u8] = b"{\"destination\":\"Maui\",\"duration\":\"one week\",\"num_people\":\"4\",\"activities\":[\"snorkeling\",\"hiking\"]}";

#[test]
fn parse_full_body() {
    let req = parse_request(GOOD_BODY).expect("body should parse");
    assert_eq!(req.destination, "Maui");
    assert_eq!(req.duration, "one week");
    assert_eq!(req.num_people, "4");
    assert_eq!(req.activities, vec!["snorkeling".to_string(), "hiking".to_string()]);
}

#[test]
fn parse_missing_destination() {
    let body = b"{\"duration\":\"one week\",\"num_people\":\"4\",\"activities\":[\"hiking\"]}";
    assert!(parse_request(body).is_none());
}

#[test]
fn parse_empty_object() {
    assert!(parse_request(b"{}").is_none());
}

#[test]
fn parse_numeric_num_people_rejected() {
    let body = b"{\"destination\":\"Maui\",\"duration\":\"one week\",\"num_people\":4,\"activities\":[\"hiking\"]}";
    assert!(parse_request(body).is_none());
}

#[test]
fn parse_activities_must_be_array() {
    let body = b"{\"destination\":\"Maui\",\"duration\":\"one week\",\"num_people\":\"4\",\"activities\":\"hiking\"}";
    assert!(parse_request(body).is_none());
}

#[test]
fn parse_activities_must_hold_strings() {
    let body = b"{\"destination\":\"Maui\",\"duration\":\"one week\",\"num_people\":\"4\",\"activities\":[\"hiking\",3]}";
    assert!(parse_request(body).is_none());
}

#[test]
fn parse_empty_activities() {
    let body =
        b"{\"destination\":\"Maui\",\"duration\":\"one week\",\"num_people\":\"4\",\"activities\":[]}";
    let req = parse_request(body).expect("body should parse");
    assert!(req.activities.is_empty());
}

#[test]
fn parse_extra_fields_ignored() {
    let body = b"{\"destination\":\"Maui\",\"duration\":\"d\",\"num_people\":\"4\",\"activities\":[],\"note\":{\"x\":[1,2]}}";
    let req = parse_request(body).expect("body should parse");
    assert_eq!(req.destination, "Maui");
}

#[test]
fn parse_not_json() {
    assert!(parse_request(b"not json at all").is_none());
    assert!(parse_request(b"").is_none());
}

#[test]
fn parse_non_object() {
    assert!(parse_request(b"[1,2,3]").is_none());
    assert!(parse_request(b"\"destination\"").is_none());
}

#[test]
fn parse_escaped_strings() {
    let body = b"{\"destination\":\"Ma\\\"ui\\n\",\"duration\":\"d\",\"num_people\":\"4\",\"activities\":[\"a\\\\b\"]}";
    let req = parse_request(body).expect("body should parse");
    assert_eq!(req.destination, "Ma\"ui\n");
    assert_eq!(req.activities, vec!["a\\b".to_string()]);
}
