use trip_planner::tag::generate_tag;

const ALPHABET: &str = "abfksjdfhslkjfh";

#[test]
fn tag_has_eight_chars_from_alphabet() {
    let tag = generate_tag();
    assert_eq!(tag.chars().count(), 8);
    assert!(tag.chars().all(|c| ALPHABET.contains(c)));
}

#[test]
fn many_tags_stay_well_formed() {
    for _ in 0..100 {
        let tag = generate_tag();
        assert_eq!(tag.chars().count(), 8);
        assert!(tag.chars().all(|c| ALPHABET.contains(c)));
    }
}
