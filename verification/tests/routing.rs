use aoe2_match_bot::dispatch::render_fetch_outcome;
use aoe2_match_bot::dispatch::route;
use aoe2_match_bot::dispatch::CommandCall;
use aoe2_match_bot::dispatch::Outcome;
use aoe2_match_bot::dispatch::TriggerEvent;
use aoe2_match_bot::dispatch::UserRef;
use aoe2_match_bot::upstream::build_url;
use aoe2_match_bot::upstream::EndpointKind;
use aoe2_match_bot::upstream::FetchError;

const BOT_ID: u64 = 42;

fn passive(author_id: u64, text: &str) -> TriggerEvent {
    TriggerEvent::PassiveMessage { author_id, raw_text: String::from(text) }
}

#[test]
fn passive_trigger_without_id_logs_only() {
    let o = route(&passive(7, "anyone want to play aoe2de?"), BOT_ID);
    assert!(matches!(o, Outcome::LogOnly));
}

#[test]
fn self_message_is_suppressed() {
    let o = route(&passive(BOT_ID, "aoe2de lobby 123456789"), BOT_ID);
    assert!(matches!(o, Outcome::Ignore));
}

#[test]
fn passive_without_trigger_phrase_is_ignored() {
    let o = route(&passive(7, "plain message with 123456789"), BOT_ID);
    assert!(matches!(o, Outcome::Ignore));
}

#[test]
fn passive_trigger_is_case_insensitive() {
    let o = route(&passive(7, "AOE2DE lobby 123456789"), BOT_ID);
    match o {
        Outcome::ComposedReply { reply } => {
            assert_eq!(reply.body_text, "Extracted Match ID: **123456789**");
        }
        other => panic!("expected a composed reply, got {:?}", other),
    }
}

#[test]
fn match_info_command_composes_reply() {
    let ev = TriggerEvent::Command {
        call: CommandCall::MatchInfo { text: String::from("lobby link 123456789 here") },
    };
    match route(&ev, BOT_ID) {
        Outcome::ComposedReply { reply } => {
            assert_eq!(reply.body_text, "Extracted Match ID: **123456789**");
            assert_eq!(reply.actions.len(), 3);
        }
        other => panic!("expected a composed reply, got {:?}", other),
    }
}

#[test]
fn match_info_command_miss_replies_diagnostic() {
    let ev = TriggerEvent::Command {
        call: CommandCall::MatchInfo { text: String::from("nothing here") },
    };
    match route(&ev, BOT_ID) {
        Outcome::PlainReply { text } => {
            assert_eq!(text, "No 9-digit match ID found in the input.");
        }
        other => panic!("expected a plain reply, got {:?}", other),
    }
}

#[test]
fn command_and_passive_paths_compose_identically() {
    let cmd = TriggerEvent::Command {
        call: CommandCall::MatchInfo { text: String::from("see 123456789") },
    };
    let msg = passive(7, "aoe2de match 123456789");
    let r1 = match route(&cmd, BOT_ID) {
        Outcome::ComposedReply { reply } => reply,
        other => panic!("expected a composed reply, got {:?}", other),
    };
    let r2 = match route(&msg, BOT_ID) {
        Outcome::ComposedReply { reply } => reply,
        other => panic!("expected a composed reply, got {:?}", other),
    };
    assert_eq!(r1.body_text, r2.body_text);
    assert_eq!(r1.actions.len(), r2.actions.len());
    for (a, b) in r1.actions.iter().zip(r2.actions.iter()) {
        assert_eq!(a.label, b.label);
        assert_eq!(a.style, b.style);
        assert_eq!(a.target_url, b.target_url);
    }
}

fn user(id: u64, name: &str, created_at: &str) -> UserRef {
    UserRef { id, name: String::from(name), created_at: String::from(created_at) }
}

#[test]
fn age_defaults_to_invoker() {
    let ev = TriggerEvent::Command {
        call: CommandCall::Age {
            invoker: user(5, "alice", "2016-06-23T10:00:00Z"),
            target: None,
        },
    };
    match route(&ev, BOT_ID) {
        Outcome::PlainReply { text } => {
            assert_eq!(text, "alice's account was created at 2016-06-23T10:00:00Z");
        }
        other => panic!("expected a plain reply, got {:?}", other),
    }
}

#[test]
fn age_uses_selected_user() {
    let ev = TriggerEvent::Command {
        call: CommandCall::Age {
            invoker: user(5, "alice", "2016-06-23T10:00:00Z"),
            target: Some(user(9, "bob", "2019-01-05T08:30:00Z")),
        },
    };
    match route(&ev, BOT_ID) {
        Outcome::PlainReply { text } => {
            assert_eq!(text, "bob's account was created at 2019-01-05T08:30:00Z");
        }
        other => panic!("expected a plain reply, got {:?}", other),
    }
}

#[test]
fn rank_command_builds_exact_url() {
    let ev = TriggerEvent::Command {
        call: CommandCall::Rank { player_name: String::from("TheViper") },
    };
    match route(&ev, BOT_ID) {
        Outcome::Fetch { query } => {
            assert_eq!(query.endpoint_kind, EndpointKind::PlayerRank);
            assert_eq!(
                build_url(&query),
                "https://data.aoe2companion.com/api/nightbot/rank?leaderboard_id=3&search=TheViper&profile_id=12348548&flag=true"
            );
        }
        other => panic!("expected a fetch, got {:?}", other),
    }
}

#[test]
fn team_rank_command_builds_exact_url() {
    let ev = TriggerEvent::Command {
        call: CommandCall::TeamRank { player_name: String::from("TheViper") },
    };
    match route(&ev, BOT_ID) {
        Outcome::Fetch { query } => {
            assert_eq!(query.endpoint_kind, EndpointKind::TeamRank);
            assert_eq!(
                build_url(&query),
                "https://data.aoe2companion.com/api/nightbot/rank?leaderboard_id=4&search=TheViper&profile_id=12348548&flag=true"
            );
        }
        other => panic!("expected a fetch, got {:?}", other),
    }
}

#[test]
fn leaderboard_command_builds_exact_url() {
    let ev = TriggerEvent::Command { call: CommandCall::Leaderboard };
    match route(&ev, BOT_ID) {
        Outcome::Fetch { query } => {
            assert_eq!(query.endpoint_kind, EndpointKind::Leaderboard);
            assert_eq!(
                build_url(&query),
                "https://www.aoe2insights.com/nightbot/leaderboard/3/?user_ids=9997875,6903668,1489563,15625569,2543215,1228227&rank=global&limit=5"
            );
        }
        other => panic!("expected a fetch, got {:?}", other),
    }
}

#[test]
fn failed_fetch_renders_fixed_failure_message() {
    assert_eq!(
        render_fetch_outcome(EndpointKind::PlayerRank, Err(FetchError::Network)),
        "Upstream statistics request failed."
    );
    assert_eq!(
        render_fetch_outcome(EndpointKind::TeamRank, Err(FetchError::HttpStatus)),
        "Upstream statistics request failed."
    );
    assert_eq!(
        render_fetch_outcome(EndpointKind::Leaderboard, Err(FetchError::Decode)),
        "Upstream statistics request failed."
    );
}

#[test]
fn rank_fetch_body_passes_through_unchanged() {
    assert_eq!(
        render_fetch_outcome(EndpointKind::PlayerRank, Ok(String::from("Rank 7 (1234)"))),
        "Rank 7 (1234)"
    );
}

#[test]
fn leaderboard_fetch_body_is_formatted() {
    assert_eq!(
        render_fetch_outcome(
            EndpointKind::Leaderboard,
            Ok(String::from("Kratos #1, Nagraj #2 (by aoe2insights.com)"))
        ),
        "Kratos #1\nNagraj #2 "
    );
}
