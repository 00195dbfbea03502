//! Dispatch routing: one trigger event — an explicit command invocation or
//! a passively scanned message — becomes exactly one outward action, with
//! self-trigger suppression and identical reply composition on both paths.
use vstd::prelude::*;
use vstd::string::StringExecFns;

use crate::compose::compose;
use crate::compose::composed_reply;
use crate::compose::ReplyModel;
use crate::compose::StructuredReply;
use crate::extract::extract;
use crate::extract::extracted_id;
use crate::extract::lemma_lower_preserves_extraction;
use crate::leaderboard::format_leaderboard;
use crate::leaderboard::formatted_leaderboard;
use crate::text::contains_lowered;
use crate::text::lower_seq;
use crate::text::seq_contains;
use crate::upstream::csv_ids;
use crate::upstream::leaderboard_query;
use crate::upstream::leaderboard_query_model;
use crate::upstream::player_rank_query;
use crate::upstream::player_rank_query_model;
use crate::upstream::roster;
use crate::upstream::roster_ids;
use crate::upstream::team_rank_query;
use crate::upstream::team_rank_query_model;
use crate::upstream::EndpointKind;
use crate::upstream::FetchError;
use crate::upstream::QueryModel;
use crate::upstream::UpstreamQuery;

verus! {

/// A chat user as the gateway adapter hands it over: identity, display
/// name, and the account-creation timestamp already rendered as text.
#[derive(Debug)]
pub struct UserRef {
    pub id: u64,
    pub name: String,
    pub created_at: String,
}

/// Mathematical model of a `UserRef`.
pub struct UserModel {
    pub id: u64,
    pub name: Seq<char>,
    pub created_at: Seq<char>,
}

impl View for UserRef {
    type V = UserModel;

    open spec fn view(&self) -> UserModel {
        UserModel { id: self.id, name: self.name@, created_at: self.created_at@ }
    }
}

/// One parsed command invocation of the command surface.
#[derive(Debug)]
pub enum CommandCall {
    /// `age [user]`: the invoking user, and the explicitly selected user if
    /// one was given.
    Age { invoker: UserRef, target: Option<UserRef> },
    /// `match_info <text>`: free-form text to extract an identifier from.
    MatchInfo { text: String },
    /// `rank <player_name>`.
    Rank { player_name: String },
    /// `team_rank <player_name>`.
    TeamRank { player_name: String },
    /// `leaderboard`, no arguments.
    Leaderboard,
}

/// Mathematical model of a `CommandCall`.
pub enum CommandModel {
    Age { invoker: UserModel, target: Option<UserModel> },
    MatchInfo { text: Seq<char> },
    Rank { player_name: Seq<char> },
    TeamRank { player_name: Seq<char> },
    Leaderboard,
}

impl View for CommandCall {
    type V = CommandModel;

    open spec fn view(&self) -> CommandModel {
        match self {
            CommandCall::Age { invoker, target } => CommandModel::Age {
                invoker: invoker@,
                target: match target {
                    Some(u) => Some(u@),
                    None => None,
                },
            },
            CommandCall::MatchInfo { text } => CommandModel::MatchInfo { text: text@ },
            CommandCall::Rank { player_name } => CommandModel::Rank {
                player_name: player_name@,
            },
            CommandCall::TeamRank { player_name } => CommandModel::TeamRank {
                player_name: player_name@,
            },
            CommandCall::Leaderboard => CommandModel::Leaderboard,
        }
    }
}

/// One inbound occurrence, normalized: an explicit command invocation or a
/// passively scanned chat message; constructed by the gateway adapter and
/// consumed once.
#[derive(Debug)]
pub enum TriggerEvent {
    Command { call: CommandCall },
    PassiveMessage { author_id: u64, raw_text: String },
}

/// Mathematical model of a `TriggerEvent`.
pub enum EventModel {
    Command { call: CommandModel },
    PassiveMessage { author_id: u64, raw_text: Seq<char> },
}

impl View for TriggerEvent {
    type V = EventModel;

    open spec fn view(&self) -> EventModel {
        match self {
            TriggerEvent::Command { call } => EventModel::Command { call: call@ },
            TriggerEvent::PassiveMessage { author_id, raw_text } => EventModel::PassiveMessage {
                author_id: *author_id,
                raw_text: raw_text@,
            },
        }
    }
}

/// The one outward action an event leads to: nothing, a diagnostic log
/// entry, a plain text reply, a composed structured reply, or one upstream
/// fetch whose result is rendered by `render_fetch_outcome`.
#[derive(Debug)]
pub enum Outcome {
    /// Discard silently: self-message, or no trigger phrase.
    Ignore,
    /// No reply to chat; record a diagnostic only (trigger phrase matched
    /// but extraction missed).
    LogOnly,
    PlainReply { text: String },
    ComposedReply { reply: StructuredReply },
    Fetch { query: UpstreamQuery },
}

/// Mathematical model of an `Outcome`.
pub enum OutcomeModel {
    Ignore,
    LogOnly,
    PlainReply { text: Seq<char> },
    ComposedReply { reply: ReplyModel },
    Fetch { query: QueryModel },
}

impl View for Outcome {
    type V = OutcomeModel;

    open spec fn view(&self) -> OutcomeModel {
        match self {
            Outcome::Ignore => OutcomeModel::Ignore,
            Outcome::LogOnly => OutcomeModel::LogOnly,
            Outcome::PlainReply { text } => OutcomeModel::PlainReply { text: text@ },
            Outcome::ComposedReply { reply } => OutcomeModel::ComposedReply { reply: reply@ },
            Outcome::Fetch { query } => OutcomeModel::Fetch { query: query@ },
        }
    }
}

/// The trigger phrase a passive message must carry (in lower case) before
/// extraction is attempted.
pub open spec fn trigger_phrase() -> Seq<char> {
    "aoe2de"@
}

/// The fixed diagnostic reply of the command path when extraction misses.
pub open spec fn no_id_message() -> Seq<char> {
    "No 9-digit match ID found in the input."@
}

/// The single generic user-visible failure message for any failed fetch.
pub open spec fn fetch_failure_message() -> Seq<char> {
    "Upstream statistics request failed."@
}

/// The text of the `age` reply for one user.
pub open spec fn age_reply(u: UserModel) -> Seq<char> {
    u.name + "'s account was created at "@ + u.created_at
}

/// What the router decides for a command invocation.
pub open spec fn routed_command(c: CommandModel) -> OutcomeModel {
    match c {
        CommandModel::Age { invoker, target } => {
            let u = match target {
                Some(t) => t,
                None => invoker,
            };
            OutcomeModel::PlainReply { text: age_reply(u) }
        },
        CommandModel::MatchInfo { text } => match extracted_id(text) {
            Some(id) => OutcomeModel::ComposedReply { reply: composed_reply(id) },
            None => OutcomeModel::PlainReply { text: no_id_message() },
        },
        CommandModel::Rank { player_name } => OutcomeModel::Fetch {
            query: player_rank_query_model(player_name),
        },
        CommandModel::TeamRank { player_name } => OutcomeModel::Fetch {
            query: team_rank_query_model(player_name),
        },
        CommandModel::Leaderboard => OutcomeModel::Fetch {
            query: leaderboard_query_model(csv_ids(roster_ids())),
        },
    }
}

/// What the router decides for an event: commands as above; a passive
/// message is discarded when it is the bot's own or carries no trigger
/// phrase, answered with a composed reply when extraction hits on the
/// lower-cased text, and logged without any chat reply when it misses.
pub open spec fn routed(e: EventModel, bot_id: u64) -> OutcomeModel {
    match e {
        EventModel::Command { call } => routed_command(call),
        EventModel::PassiveMessage { author_id, raw_text } => {
            if author_id == bot_id {
                OutcomeModel::Ignore
            } else if !seq_contains(lower_seq(raw_text), trigger_phrase()) {
                OutcomeModel::Ignore
            } else {
                match extracted_id(lower_seq(raw_text)) {
                    Some(id) => OutcomeModel::ComposedReply { reply: composed_reply(id) },
                    None => OutcomeModel::LogOnly,
                }
            }
        },
    }
}

/// Routes one command invocation.
pub fn route_command(call: &CommandCall) -> (o: Outcome)
    ensures
        o@ == routed_command(call@),
{
    match call {
        CommandCall::Age { invoker, target } => {
            let u = match target {
                Some(t) => t,
                None => invoker,
            };
            let text = u.name.clone().concat("'s account was created at ").concat(
                u.created_at.as_str(),
            );
            Outcome::PlainReply { text }
        },
        CommandCall::MatchInfo { text } => match extract(text.as_str()) {
            Some(id) => Outcome::ComposedReply { reply: compose(&id) },
            None => Outcome::PlainReply {
                text: String::from_str("No 9-digit match ID found in the input."),
            },
        },
        CommandCall::Rank { player_name } => Outcome::Fetch {
            query: player_rank_query(player_name.as_str()),
        },
        CommandCall::TeamRank { player_name } => Outcome::Fetch {
            query: team_rank_query(player_name.as_str()),
        },
        CommandCall::Leaderboard => {
            let entries = roster();
            Outcome::Fetch { query: leaderboard_query(&entries) }
        },
    }
}

/// Routes one trigger event; per-event, no cross-event state, so one
/// event's handling never affects another's.
pub fn route(event: &TriggerEvent, bot_id: u64) -> (o: Outcome)
    ensures
        o@ == routed(event@, bot_id),
{
    match event {
        TriggerEvent::Command { call } => route_command(call),
        TriggerEvent::PassiveMessage { author_id, raw_text } => {
            if *author_id == bot_id {
                Outcome::Ignore
            } else if !contains_lowered(raw_text.as_str(), "aoe2de") {
                Outcome::Ignore
            } else {
                proof {
                    lemma_lower_preserves_extraction(raw_text@);
                }
                match extract(raw_text.as_str()) {
                    Some(id) => Outcome::ComposedReply { reply: compose(&id) },
                    None => Outcome::LogOnly,
                }
            }
        },
    }
}

/// The view of a fetch result: the body text on success, the error kind
/// otherwise.
pub open spec fn fetch_result_model(r: Result<String, FetchError>) -> Result<Seq<char>, FetchError> {
    match r {
        Ok(body) => Ok(body@),
        Err(e) => Err(e),
    }
}

/// The text sent for a finished fetch: the raw body for rank queries, the
/// normalized form for the leaderboard, and the single fixed failure
/// message for a failed fetch of any kind.
pub open spec fn rendered_fetch(kind: EndpointKind, r: Result<Seq<char>, FetchError>) -> Seq<
    char,
> {
    match r {
        Ok(body) => match kind {
            EndpointKind::Leaderboard => formatted_leaderboard(body),
            EndpointKind::PlayerRank => body,
            EndpointKind::TeamRank => body,
        },
        Err(_) => fetch_failure_message(),
    }
}

/// Renders a finished fetch into the text to reply with.
pub fn render_fetch_outcome(kind: EndpointKind, result: Result<String, FetchError>) -> (r: String)
    ensures
        r@ == rendered_fetch(kind, fetch_result_model(result)),
{
    match result {
        Ok(body) => match kind {
            EndpointKind::Leaderboard => format_leaderboard(body.as_str()),
            EndpointKind::PlayerRank => body,
            EndpointKind::TeamRank => body,
        },
        Err(_) => String::from_str("Upstream statistics request failed."),
    }
}

/// Law: command-path and passive-path parity. A `match_info` invocation and
/// a passive message that passes both guards lead, whenever they extract the
/// same identifier, to the identical composed reply.
pub proof fn lemma_path_parity(text: Seq<char>, raw: Seq<char>, author_id: u64, bot_id: u64)
    requires
        author_id != bot_id,
        seq_contains(lower_seq(raw), trigger_phrase()),
        extracted_id(text) is Some,
        extracted_id(lower_seq(raw)) == extracted_id(text),
    ensures
        routed(EventModel::Command { call: CommandModel::MatchInfo { text } }, bot_id) == routed(
            EventModel::PassiveMessage { author_id, raw_text: raw },
            bot_id,
        ),
        routed(EventModel::Command { call: CommandModel::MatchInfo { text } }, bot_id)
            is ComposedReply,
{
}

/// Law: self-message suppression. A passive message whose author is the bot
/// itself is discarded outright — never any outbound reply — whatever its
/// text holds.
pub proof fn lemma_self_suppression(raw: Seq<char>, bot_id: u64)
    ensures
        routed(EventModel::PassiveMessage { author_id: bot_id, raw_text: raw }, bot_id)
            == OutcomeModel::Ignore,
{
}

} // verus!
