//! Upstream query descriptors and their request URLs: three endpoint
//! families whose URL shapes are a wire contract with an uncontrolled third
//! party and are reproduced exactly.
use vstd::prelude::*;
use vstd::string::StringExecFns;

verus! {

/// The three upstream endpoint families.
#[derive(Clone, Copy, PartialEq, Eq, Structural, Debug)]
pub enum EndpointKind {
    PlayerRank,
    TeamRank,
    Leaderboard,
}

/// Why an upstream fetch failed: transport failure, a non-success status,
/// or a body that could not be read as text.
#[derive(Clone, Copy, PartialEq, Eq, Structural, Debug)]
pub enum FetchError {
    Network,
    HttpStatus,
    Decode,
}

/// A parameterized request descriptor for one upstream endpoint; parameter
/// insertion order is preserved in the URL.
#[derive(Debug)]
pub struct UpstreamQuery {
    pub endpoint_kind: EndpointKind,
    pub parameters: Vec<(String, String)>,
}

/// Mathematical model of an `UpstreamQuery`.
pub struct QueryModel {
    pub kind: EndpointKind,
    pub params: Seq<(Seq<char>, Seq<char>)>,
}

impl View for UpstreamQuery {
    type V = QueryModel;

    open spec fn view(&self) -> QueryModel {
        QueryModel {
            kind: self.endpoint_kind,
            params: self.parameters@.map_values(|p: (String, String)| (p.0@, p.1@)),
        }
    }
}

/// One fixed roster entry: a player id and the display comment kept with it.
#[derive(Debug)]
pub struct RosterEntry {
    pub player_id: String,
    pub display_comment: String,
}

/// The configured base endpoint of each endpoint family.
pub open spec fn base_url(kind: EndpointKind) -> Seq<char> {
    match kind {
        EndpointKind::PlayerRank => "https://data.aoe2companion.com/api/nightbot/rank"@,
        EndpointKind::TeamRank => "https://data.aoe2companion.com/api/nightbot/rank"@,
        EndpointKind::Leaderboard => "https://www.aoe2insights.com/nightbot/leaderboard/3/"@,
    }
}

/// Parameters serialized as a query string, `key=value` pairs joined by
/// `&`, in insertion order.
pub open spec fn query_string(params: Seq<(Seq<char>, Seq<char>)>) -> Seq<char>
    decreases params.len(),
{
    if params.len() == 0 {
        Seq::empty()
    } else if params.len() == 1 {
        params[0].0 + "="@ + params[0].1
    } else {
        params[0].0 + "="@ + params[0].1 + "&"@ + query_string(params.drop_first())
    }
}

/// The full request URL of a query: base endpoint, `?`, query string.
pub open spec fn url_of(q: QueryModel) -> Seq<char> {
    base_url(q.kind) + "?"@ + query_string(q.params)
}

/// Appending one more parameter extends the serialized query string at its
/// end.
proof fn lemma_query_string_push(params: Seq<(Seq<char>, Seq<char>)>, p: (Seq<char>, Seq<char>))
    ensures
        params.len() == 0 ==> query_string(params.push(p)) =~= p.0 + "="@ + p.1,
        params.len() > 0 ==> query_string(params.push(p)) =~= query_string(params) + "&"@ + p.0
            + "="@ + p.1,
    decreases params.len(),
{
    let extended = params.push(p);
    if params.len() == 0 {
        assert(extended.len() == 1);
        assert(extended[0] == p);
    } else {
        assert(extended.len() >= 2);
        assert(extended[0] == params[0]);
        lemma_query_string_push(params.drop_first(), p);
        assert(extended.drop_first() =~= params.drop_first().push(p));
        if params.len() == 1 {
            assert(params.drop_first().len() == 0);
            assert(query_string(extended.drop_first()) =~= p.0 + "="@ + p.1);
        }
    }
}

/// Builds the request URL for a query: the configured base endpoint for its
/// kind, then the parameters as a query string in insertion order.
pub fn build_url(q: &UpstreamQuery) -> (r: String)
    ensures
        r@ == url_of(q@),
{
    let mut url = match q.endpoint_kind {
        EndpointKind::PlayerRank => String::from_str(
            "https://data.aoe2companion.com/api/nightbot/rank",
        ),
        EndpointKind::TeamRank => String::from_str(
            "https://data.aoe2companion.com/api/nightbot/rank",
        ),
        EndpointKind::Leaderboard => String::from_str(
            "https://www.aoe2insights.com/nightbot/leaderboard/3/",
        ),
    };
    url.append("?");
    let ghost all = q@.params;
    proof {
        assert(all.len() == q.parameters@.len());
        assert(all.take(0) =~= Seq::<(Seq<char>, Seq<char>)>::empty());
        assert(url@ =~= base_url(q@.kind) + "?"@ + query_string(all.take(0)));
    }
    let mut i: usize = 0;
    while i < q.parameters.len()
        invariant
            0 <= i <= q.parameters.len(),
            all == q@.params,
            all.len() == q.parameters@.len(),
            url@ == base_url(q@.kind) + "?"@ + query_string(all.take(i as int)),
        decreases q.parameters.len() - i,
    {
        let ghost before = url@;
        let pair = &q.parameters[i];
        if i > 0 {
            url.append("&");
        }
        url.append(pair.0.as_str());
        url.append("=");
        url.append(pair.1.as_str());
        proof {
            assert(all[i as int] == (q.parameters@[i as int].0@, q.parameters@[i as int].1@));
            assert(all.take(i + 1) =~= all.take(i as int).push(all[i as int]));
            lemma_query_string_push(all.take(i as int), all[i as int]);
            if i == 0 {
                assert(all.take(0).len() == 0);
                assert(url@ =~= base_url(q@.kind) + "?"@ + query_string(all.take(1)));
            } else {
                assert(url@ =~= base_url(q@.kind) + "?"@ + query_string(all.take(i + 1)));
            }
        }
        i += 1;
    }
    proof {
        assert(all.take(q.parameters@.len() as int) =~= all);
    }
    url
}

/// The parameters of a player-rank query for one in-game player name.
pub open spec fn player_rank_query_model(player: Seq<char>) -> QueryModel {
    QueryModel {
        kind: EndpointKind::PlayerRank,
        params: seq![
            ("leaderboard_id"@, "3"@),
            ("search"@, player),
            ("profile_id"@, "12348548"@),
            ("flag"@, "true"@),
        ],
    }
}

/// The parameters of a team-rank query for one in-game player name.
pub open spec fn team_rank_query_model(player: Seq<char>) -> QueryModel {
    QueryModel {
        kind: EndpointKind::TeamRank,
        params: seq![
            ("leaderboard_id"@, "4"@),
            ("search"@, player),
            ("profile_id"@, "12348548"@),
            ("flag"@, "true"@),
        ],
    }
}

/// The parameters of the roster leaderboard query, given the roster ids
/// already joined by commas.
pub open spec fn leaderboard_query_model(user_ids: Seq<char>) -> QueryModel {
    QueryModel {
        kind: EndpointKind::Leaderboard,
        params: seq![("user_ids"@, user_ids), ("rank"@, "global"@), ("limit"@, "5"@)],
    }
}

/// Builds the player-rank query descriptor.
pub fn player_rank_query(player_name: &str) -> (q: UpstreamQuery)
    ensures
        q@ == player_rank_query_model(player_name@),
{
    let mut parameters: Vec<(String, String)> = Vec::new();
    parameters.push((String::from_str("leaderboard_id"), String::from_str("3")));
    parameters.push((String::from_str("search"), player_name.to_owned()));
    parameters.push((String::from_str("profile_id"), String::from_str("12348548")));
    parameters.push((String::from_str("flag"), String::from_str("true")));
    let q = UpstreamQuery { endpoint_kind: EndpointKind::PlayerRank, parameters };
    proof {
        assert(q@.params =~= player_rank_query_model(player_name@).params);
    }
    q
}

/// Builds the team-rank query descriptor.
pub fn team_rank_query(player_name: &str) -> (q: UpstreamQuery)
    ensures
        q@ == team_rank_query_model(player_name@),
{
    let mut parameters: Vec<(String, String)> = Vec::new();
    parameters.push((String::from_str("leaderboard_id"), String::from_str("4")));
    parameters.push((String::from_str("search"), player_name.to_owned()));
    parameters.push((String::from_str("profile_id"), String::from_str("12348548")));
    parameters.push((String::from_str("flag"), String::from_str("true")));
    let q = UpstreamQuery { endpoint_kind: EndpointKind::TeamRank, parameters };
    proof {
        assert(q@.params =~= team_rank_query_model(player_name@).params);
    }
    q
}

/// The player ids of given roster entries, in order.
pub open spec fn roster_id_views(entries: Seq<RosterEntry>) -> Seq<Seq<char>> {
    entries.map_values(|e: RosterEntry| e.player_id@)
}

/// The display comments of given roster entries, in order.
pub open spec fn roster_comment_views(entries: Seq<RosterEntry>) -> Seq<Seq<char>> {
    entries.map_values(|e: RosterEntry| e.display_comment@)
}

/// The fixed roster ids, in their configured order.
pub open spec fn roster_ids() -> Seq<Seq<char>> {
    seq!["9997875"@, "6903668"@, "1489563"@, "15625569"@, "2543215"@, "1228227"@]
}

/// The display comments kept beside the roster ids, in the same order.
pub open spec fn roster_comments() -> Seq<Seq<char>> {
    seq!["Kratos"@, "Nagraj"@, "deadmeat"@, "CVS"@, "marathaSun"@, "hjpotter92"@]
}

/// The process-wide roster: read-only configuration, used only to build the
/// leaderboard query's `user_ids` parameter.
pub fn roster() -> (r: Vec<RosterEntry>)
    ensures
        roster_id_views(r@) == roster_ids(),
        roster_comment_views(r@) == roster_comments(),
{
    let mut r: Vec<RosterEntry> = Vec::new();
    r.push(
        RosterEntry {
            player_id: String::from_str("9997875"),
            display_comment: String::from_str("Kratos"),
        },
    );
    r.push(
        RosterEntry {
            player_id: String::from_str("6903668"),
            display_comment: String::from_str("Nagraj"),
        },
    );
    r.push(
        RosterEntry {
            player_id: String::from_str("1489563"),
            display_comment: String::from_str("deadmeat"),
        },
    );
    r.push(
        RosterEntry {
            player_id: String::from_str("15625569"),
            display_comment: String::from_str("CVS"),
        },
    );
    r.push(
        RosterEntry {
            player_id: String::from_str("2543215"),
            display_comment: String::from_str("marathaSun"),
        },
    );
    r.push(
        RosterEntry {
            player_id: String::from_str("1228227"),
            display_comment: String::from_str("hjpotter92"),
        },
    );
    proof {
        assert(roster_id_views(r@) =~= roster_ids());
        assert(roster_comment_views(r@) =~= roster_comments());
    }
    r
}

/// The given ids joined by commas, in order.
pub open spec fn csv_ids(ids: Seq<Seq<char>>) -> Seq<char>
    decreases ids.len(),
{
    if ids.len() == 0 {
        Seq::empty()
    } else if ids.len() == 1 {
        ids[0]
    } else {
        ids[0] + ","@ + csv_ids(ids.drop_first())
    }
}

/// Appending one more id extends the comma-joined list at its end.
proof fn lemma_csv_push(ids: Seq<Seq<char>>, id: Seq<char>)
    ensures
        ids.len() == 0 ==> csv_ids(ids.push(id)) =~= id,
        ids.len() > 0 ==> csv_ids(ids.push(id)) =~= csv_ids(ids) + ","@ + id,
    decreases ids.len(),
{
    let extended = ids.push(id);
    if ids.len() == 0 {
        assert(extended[0] == id);
    } else {
        assert(extended[0] == ids[0]);
        lemma_csv_push(ids.drop_first(), id);
        assert(extended.drop_first() =~= ids.drop_first().push(id));
        if ids.len() == 1 {
            assert(ids.drop_first().len() == 0);
            assert(csv_ids(extended.drop_first()) =~= id);
        }
    }
}

/// Builds the leaderboard query descriptor from a roster: the entries'
/// player ids, comma-joined in roster order, as `user_ids`.
pub fn leaderboard_query(entries: &Vec<RosterEntry>) -> (q: UpstreamQuery)
    ensures
        q@ == leaderboard_query_model(csv_ids(roster_id_views(entries@))),
{
    let ghost ids = roster_id_views(entries@);
    let mut user_ids = String::new();
    proof {
        assert(ids.take(0) =~= Seq::<Seq<char>>::empty());
        assert(user_ids@ =~= csv_ids(ids.take(0)));
    }
    let mut i: usize = 0;
    while i < entries.len()
        invariant
            0 <= i <= entries.len(),
            ids == roster_id_views(entries@),
            ids.len() == entries@.len(),
            user_ids@ == csv_ids(ids.take(i as int)),
        decreases entries.len() - i,
    {
        if i > 0 {
            user_ids.append(",");
        }
        user_ids.append(entries[i].player_id.as_str());
        proof {
            assert(ids[i as int] == entries@[i as int].player_id@);
            assert(ids.take(i + 1) =~= ids.take(i as int).push(ids[i as int]));
            lemma_csv_push(ids.take(i as int), ids[i as int]);
            if i == 0 {
                assert(ids.take(0).len() == 0);
                assert(user_ids@ =~= csv_ids(ids.take(1)));
            } else {
                assert(user_ids@ =~= csv_ids(ids.take(i + 1)));
            }
        }
        i += 1;
    }
    proof {
        assert(ids.take(entries@.len() as int) =~= ids);
    }
    let mut parameters: Vec<(String, String)> = Vec::new();
    parameters.push((String::from_str("user_ids"), user_ids));
    parameters.push((String::from_str("rank"), String::from_str("global")));
    parameters.push((String::from_str("limit"), String::from_str("5")));
    let q = UpstreamQuery { endpoint_kind: EndpointKind::Leaderboard, parameters };
    proof {
        assert(q@.params =~= leaderboard_query_model(csv_ids(ids)).params);
    }
    q
}

/// Law (wire contract): the player-rank URL has exactly the shape the
/// upstream service expects.
pub proof fn lemma_player_rank_url(player: Seq<char>)
    ensures
        url_of(player_rank_query_model(player))
            == "https://data.aoe2companion.com/api/nightbot/rank?leaderboard_id=3&search="@
            + player + "&profile_id=12348548&flag=true"@,
{
    reveal_strlit("https://data.aoe2companion.com/api/nightbot/rank");
    reveal_strlit("https://data.aoe2companion.com/api/nightbot/rank?leaderboard_id=3&search=");
    reveal_strlit("&profile_id=12348548&flag=true");
    reveal_strlit("leaderboard_id");
    reveal_strlit("search");
    reveal_strlit("profile_id");
    reveal_strlit("flag");
    reveal_strlit("3");
    reveal_strlit("true");
    reveal_strlit("12348548");
    reveal_strlit("=");
    reveal_strlit("&");
    reveal_strlit("?");
    reveal_with_fuel(query_string, 5);
    let ps = player_rank_query_model(player).params;
    assert(ps.drop_first() =~= seq![
        ("search"@, player),
        ("profile_id"@, "12348548"@),
        ("flag"@, "true"@),
    ]);
    assert(ps.drop_first().drop_first() =~= seq![("profile_id"@, "12348548"@), ("flag"@, "true"@)]);
    assert(ps.drop_first().drop_first().drop_first() =~= seq![("flag"@, "true"@)]);
    assert(url_of(player_rank_query_model(player))
        =~= "https://data.aoe2companion.com/api/nightbot/rank?leaderboard_id=3&search="@ + player
        + "&profile_id=12348548&flag=true"@);
}

/// Law (wire contract): the team-rank URL has exactly the shape the
/// upstream service expects.
pub proof fn lemma_team_rank_url(player: Seq<char>)
    ensures
        url_of(team_rank_query_model(player))
            == "https://data.aoe2companion.com/api/nightbot/rank?leaderboard_id=4&search="@
            + player + "&profile_id=12348548&flag=true"@,
{
    reveal_strlit("https://data.aoe2companion.com/api/nightbot/rank");
    reveal_strlit("https://data.aoe2companion.com/api/nightbot/rank?leaderboard_id=4&search=");
    reveal_strlit("&profile_id=12348548&flag=true");
    reveal_strlit("leaderboard_id");
    reveal_strlit("search");
    reveal_strlit("profile_id");
    reveal_strlit("flag");
    reveal_strlit("4");
    reveal_strlit("true");
    reveal_strlit("12348548");
    reveal_strlit("=");
    reveal_strlit("&");
    reveal_strlit("?");
    reveal_with_fuel(query_string, 5);
    let ps = team_rank_query_model(player).params;
    assert(ps.drop_first() =~= seq![
        ("search"@, player),
        ("profile_id"@, "12348548"@),
        ("flag"@, "true"@),
    ]);
    assert(ps.drop_first().drop_first() =~= seq![("profile_id"@, "12348548"@), ("flag"@, "true"@)]);
    assert(ps.drop_first().drop_first().drop_first() =~= seq![("flag"@, "true"@)]);
    assert(url_of(team_rank_query_model(player))
        =~= "https://data.aoe2companion.com/api/nightbot/rank?leaderboard_id=4&search="@ + player
        + "&profile_id=12348548&flag=true"@);
}

/// Law (wire contract): the leaderboard URL has exactly the shape the
/// upstream service expects.
pub proof fn lemma_leaderboard_url(user_ids: Seq<char>)
    ensures
        url_of(leaderboard_query_model(user_ids))
            == "https://www.aoe2insights.com/nightbot/leaderboard/3/?user_ids="@ + user_ids
            + "&rank=global&limit=5"@,
{
    reveal_strlit("https://www.aoe2insights.com/nightbot/leaderboard/3/");
    reveal_strlit("https://www.aoe2insights.com/nightbot/leaderboard/3/?user_ids=");
    reveal_strlit("&rank=global&limit=5");
    reveal_strlit("user_ids");
    reveal_strlit("rank");
    reveal_strlit("limit");
    reveal_strlit("global");
    reveal_strlit("5");
    reveal_strlit("=");
    reveal_strlit("&");
    reveal_strlit("?");
    reveal_with_fuel(query_string, 4);
    let ps = leaderboard_query_model(user_ids).params;
    assert(ps.drop_first() =~= seq![("rank"@, "global"@), ("limit"@, "5"@)]);
    assert(ps.drop_first().drop_first() =~= seq![("limit"@, "5"@)]);
    assert(url_of(leaderboard_query_model(user_ids))
        =~= "https://www.aoe2insights.com/nightbot/leaderboard/3/?user_ids="@ + user_ids
        + "&rank=global&limit=5"@);
}

} // verus!
