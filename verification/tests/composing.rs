use aoe2_match_bot::compose::compose;
use aoe2_match_bot::compose::ButtonStyle;
use aoe2_match_bot::extract::extract;

#[test]
fn compose_body_text_is_exact() {
    let id = extract("123456789").unwrap();
    let reply = compose(&id);
    assert_eq!(reply.body_text, "Extracted Match ID: **123456789**");
}

#[test]
fn compose_has_three_actions_in_fixed_style_order() {
    let id = extract("123456789").unwrap();
    let reply = compose(&id);
    assert_eq!(reply.actions.len(), 3);
    assert_eq!(reply.actions[0].style, ButtonStyle::Success);
    assert_eq!(reply.actions[1].style, ButtonStyle::Primary);
    assert_eq!(reply.actions[2].style, ButtonStyle::Secondary);
}

#[test]
fn compose_action_labels_are_exact() {
    let id = extract("123456789").unwrap();
    let reply = compose(&id);
    assert_eq!(reply.actions[0].label, "Join lobby in game");
    assert_eq!(reply.actions[1].label, "Spectate match by clicking here");
    assert_eq!(reply.actions[2].label, "Post-match analysis (on aoe2insights)");
}

#[test]
fn compose_action_urls_are_exact() {
    let id = extract("123456789").unwrap();
    let reply = compose(&id);
    assert_eq!(
        reply.actions[0].target_url,
        "https://httpbin.org/redirect-to?url=aoe2de://0/123456789"
    );
    assert_eq!(
        reply.actions[1].target_url,
        "https://httpbin.org/redirect-to?url=aoe2de://1/123456789"
    );
    assert_eq!(
        reply.actions[2].target_url,
        "https://www.aoe2insights.com/match/123456789/"
    );
}

#[test]
fn compose_is_deterministic() {
    let id1 = extract("match 555000111 here").unwrap();
    let id2 = extract("555000111").unwrap();
    let r1 = compose(&id1);
    let r2 = compose(&id2);
    assert_eq!(r1.body_text, r2.body_text);
    assert_eq!(r1.actions.len(), r2.actions.len());
    for (a, b) in r1.actions.iter().zip(r2.actions.iter()) {
        assert_eq!(a.label, b.label);
        assert_eq!(a.style, b.style);
        assert_eq!(a.target_url, b.target_url);
    }
}
