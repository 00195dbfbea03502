//! Reply composition: one canonical identifier becomes one structured
//! reply, body text plus three deep-link actions in a fixed order, on the
//! command path and on the passive path alike.
use vstd::prelude::*;
use vstd::string::StringExecFns;

use crate::extract::MatchId;

verus! {

/// Visual style of a clickable reply action.
#[derive(Clone, Copy, PartialEq, Eq, Structural, Debug)]
pub enum ButtonStyle {
    Primary,
    Success,
    Secondary,
}

/// One clickable link action of a reply.
#[derive(Debug)]
pub struct ReplyAction {
    pub label: String,
    pub style: ButtonStyle,
    pub target_url: String,
}

/// Mathematical model of a `ReplyAction`.
pub struct ActionModel {
    pub label: Seq<char>,
    pub style: ButtonStyle,
    pub url: Seq<char>,
}

impl View for ReplyAction {
    type V = ActionModel;

    open spec fn view(&self) -> ActionModel {
        ActionModel { label: self.label@, style: self.style, url: self.target_url@ }
    }
}

/// The canonical output of both trigger paths: body text plus an ordered
/// sequence of actions (insertion order is display order).
#[derive(Debug)]
pub struct StructuredReply {
    pub body_text: String,
    pub actions: Vec<ReplyAction>,
}

/// Mathematical model of a `StructuredReply`.
pub struct ReplyModel {
    pub body: Seq<char>,
    pub actions: Seq<ActionModel>,
}

impl View for StructuredReply {
    type V = ReplyModel;

    open spec fn view(&self) -> ReplyModel {
        ReplyModel {
            body: self.body_text@,
            actions: self.actions@.map_values(|a: ReplyAction| a@),
        }
    }
}

/// Deep link that joins the lobby of the given match in game.
pub open spec fn lobby_url(id: Seq<char>) -> Seq<char> {
    "https://httpbin.org/redirect-to?url=aoe2de://0/"@ + id
}

/// Deep link that spectates the given match in game.
pub open spec fn spectate_url(id: Seq<char>) -> Seq<char> {
    "https://httpbin.org/redirect-to?url=aoe2de://1/"@ + id
}

/// Link to the post-match analysis page for the given match.
pub open spec fn analysis_url(id: Seq<char>) -> Seq<char> {
    "https://www.aoe2insights.com/match/"@ + id + "/"@
}

/// Body text of a composed reply.
pub open spec fn reply_body(id: Seq<char>) -> Seq<char> {
    "Extracted Match ID: **"@ + id + "**"@
}

/// The one reply composed for an identifier: fixed body text and three
/// actions, in the fixed order Success, Primary, Secondary.
pub open spec fn composed_reply(id: Seq<char>) -> ReplyModel {
    ReplyModel {
        body: reply_body(id),
        actions: seq![
            ActionModel {
                label: "Join lobby in game"@,
                style: ButtonStyle::Success,
                url: lobby_url(id),
            },
            ActionModel {
                label: "Spectate match by clicking here"@,
                style: ButtonStyle::Primary,
                url: spectate_url(id),
            },
            ActionModel {
                label: "Post-match analysis (on aoe2insights)"@,
                style: ButtonStyle::Secondary,
                url: analysis_url(id),
            },
        ],
    }
}

/// Law: composition is a pure function of the identifier — equal
/// identifiers give equal replies — and the three actions always appear in
/// the fixed style order Success, Primary, Secondary.
pub proof fn lemma_compose_pure(id1: Seq<char>, id2: Seq<char>)
    requires
        id1 == id2,
    ensures
        composed_reply(id1) == composed_reply(id2),
        composed_reply(id1).actions.len() == 3,
        composed_reply(id1).actions[0].style == ButtonStyle::Success,
        composed_reply(id1).actions[1].style == ButtonStyle::Primary,
        composed_reply(id1).actions[2].style == ButtonStyle::Secondary,
{
}

/// Composes the structured reply for an extracted identifier; deterministic,
/// never fails, performs no I/O.
pub fn compose(id: &MatchId) -> (r: StructuredReply)
    ensures
        r@ == composed_reply(id@),
{
    let body_text = String::from_str("Extracted Match ID: **").concat(id.as_str()).concat("**");
    let mut actions: Vec<ReplyAction> = Vec::new();
    actions.push(
        ReplyAction {
            label: String::from_str("Join lobby in game"),
            style: ButtonStyle::Success,
            target_url: String::from_str("https://httpbin.org/redirect-to?url=aoe2de://0/")
                .concat(id.as_str()),
        },
    );
    actions.push(
        ReplyAction {
            label: String::from_str("Spectate match by clicking here"),
            style: ButtonStyle::Primary,
            target_url: String::from_str("https://httpbin.org/redirect-to?url=aoe2de://1/")
                .concat(id.as_str()),
        },
    );
    actions.push(
        ReplyAction {
            label: String::from_str("Post-match analysis (on aoe2insights)"),
            style: ButtonStyle::Secondary,
            target_url: String::from_str("https://www.aoe2insights.com/match/")
                .concat(id.as_str()).concat("/"),
        },
    );
    let r = StructuredReply { body_text, actions };
    proof {
        assert(r@.body =~= composed_reply(id@).body);
        assert(r@.actions =~= composed_reply(id@).actions);
    }
    r
}

} // verus!
