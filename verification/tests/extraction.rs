use aoe2_match_bot::extract::extract;
use aoe2_match_bot::extract::MatchId;

#[test]
fn extracts_simple_id() {
    let r = extract("check match 123456789 please").unwrap();
    assert_eq!(r.as_str(), "123456789");
}

#[test]
fn rejects_eleven_digit_number() {
    assert!(extract("my number is 11234567890").is_none());
}

#[test]
fn rejects_eight_digit_number() {
    assert!(extract("only 12345678 here").is_none());
}

#[test]
fn rejects_ten_digit_number() {
    assert!(extract("call 1234567890 now").is_none());
}

#[test]
fn accepts_id_at_string_edges() {
    assert_eq!(extract("123456789").unwrap().as_str(), "123456789");
    assert_eq!(extract("123456789 tail").unwrap().as_str(), "123456789");
    assert_eq!(extract("head 123456789").unwrap().as_str(), "123456789");
}

#[test]
fn accepts_id_bounded_by_letters() {
    assert_eq!(extract("a123456789b").unwrap().as_str(), "123456789");
}

#[test]
fn takes_first_of_two_ids() {
    assert_eq!(
        extract("lobby 123456789 or 987654321").unwrap().as_str(),
        "123456789"
    );
}

#[test]
fn skips_short_run_then_finds_id() {
    assert_eq!(extract("12 th 987654321!").unwrap().as_str(), "987654321");
}

#[test]
fn rejects_empty_and_digitless_text() {
    assert!(extract("").is_none());
    assert!(extract("no digits at all").is_none());
}

#[test]
fn extracts_from_insights_link() {
    assert_eq!(
        extract("https://www.aoe2insights.com/match/123456789/").unwrap().as_str(),
        "123456789"
    );
}

#[test]
fn match_id_validates_whole_string() {
    assert_eq!(MatchId::new("123456789").unwrap().as_str(), "123456789");
    assert!(MatchId::new("12345678").is_none());
    assert!(MatchId::new("1234567890").is_none());
    assert!(MatchId::new("12345678a").is_none());
    assert!(MatchId::new("").is_none());
}
