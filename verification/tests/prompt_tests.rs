use trip_planner::prompt::build_prompt;
use trip_planner::request::SampleResponse;

fn request(
    destination: &str,
    duration: &str,
    num_people: &str,
    activities: &[&str],
) -> SampleResponse {
    SampleResponse {
        destination: destination.to_string(),
        duration: duration.to_string(),
        num_people: num_people.to_string(),
        activities: activities.iter().map(|a| a.to_string()).collect(),
    }
}

#[test]
fn prompt_example_trip() {
    let req = request("Maui", "one week", "4", &["snorkeling", "hiking"]);
    assert_eq!(
        build_prompt(&req),
        "Create a summer vacation detailed itinerary trip to go to Maui for a one week. \
         4 people will be going on this trip planning to do snorkeling, hiking"
    );
}

#[test]
fn prompt_joins_activities_with_comma_space() {
    let req = request("Oslo", "weekend", "2", &["hiking", "swimming"]);
    let prompt = build_prompt(&req);
    assert!(prompt.ends_with("planning to do hiking, swimming"));
}

#[test]
fn prompt_single_activity() {
    let req = request("Oslo", "weekend", "2", &["skiing"]);
    assert!(build_prompt(&req).ends_with("planning to do skiing"));
}

#[test]
fn prompt_no_activities() {
    let req = request("Oslo", "weekend", "2", &[]);
    assert!(build_prompt(&req).ends_with("planning to do "));
}

#[test]
fn prompt_is_deterministic() {
    let a = request("Maui", "one week", "4", &["snorkeling", "hiking"]);
    let b = request("Maui", "one week", "4", &["snorkeling", "hiking"]);
    assert_eq!(build_prompt(&a), build_prompt(&b));
}

#[test]
fn prompt_interpolates_verbatim() {
    let req = request("a \"place\"", "day", "1", &["x, y"]);
    assert_eq!(
        build_prompt(&req),
        "Create a summer vacation detailed itinerary trip to go to a \"place\" for a day. \
         1 people will be going on this trip planning to do x, y"
    );
}
