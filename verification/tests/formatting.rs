use aoe2_match_bot::leaderboard::format_leaderboard;
use aoe2_match_bot::upstream::roster;

#[test]
fn format_strips_attribution_then_splits() {
    // Stripping the attribution leaves the space that stood before it, so
    // the middle entry keeps a trailing space after the split.
    assert_eq!(
        format_leaderboard("A, B (by aoe2insights.com), C"),
        "A\nB \nC"
    );
}

#[test]
fn format_trailing_attribution() {
    assert_eq!(
        format_leaderboard("Kratos, Nagraj (by aoe2insights.com)"),
        "Kratos\nNagraj "
    );
}

#[test]
fn format_without_attribution_only_splits() {
    assert_eq!(format_leaderboard("A, B, C"), "A\nB\nC");
}

#[test]
fn format_strips_every_attribution() {
    assert_eq!(
        format_leaderboard("A (by aoe2insights.com), B (by aoe2insights.com)"),
        "A \nB "
    );
}

#[test]
fn format_empty_input() {
    assert_eq!(format_leaderboard(""), "");
}

#[test]
fn format_comma_without_space_is_kept() {
    assert_eq!(format_leaderboard("A,B"), "A,B");
}

#[test]
fn roster_holds_the_six_configured_players() {
    let entries = roster();
    let ids: Vec<&str> = entries.iter().map(|e| e.player_id.as_str()).collect();
    assert_eq!(
        ids,
        vec!["9997875", "6903668", "1489563", "15625569", "2543215", "1228227"]
    );
    assert_eq!(entries[0].display_comment, "Kratos");
    assert_eq!(entries[5].display_comment, "hjpotter92");
}
