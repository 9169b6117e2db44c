//! The Henrik endpoints the UI uses: each request type yields the path and
//! the query of its GET request.
use vstd::prelude::*;

use crate::string_map::StringMap;
use crate::text::{chars_of, decimal, decimal_string, push_str, string_of};

use super::client::{encoded, query, query_lookup, segment};

verus! {

/// Path and query of a Henrik request.
pub struct HenrikRequest {
    pub path: String,
    pub query: StringMap,
}

pub struct HenrikAccountByNameRequest {
    pub name: String,
    pub tag: String,
    pub force: Option<bool>,
}

pub struct HenrikAccountByPuuidRequest {
    pub puuid: String,
    pub force: Option<bool>,
}

pub struct HenrikContentRequest {
    pub locale: Option<String>,
}

pub struct HenrikCrosshairRequest {
    pub id: Option<String>,
}

pub struct HenrikEsportsScheduleRequest {
    pub region: Option<String>,
    pub league: Option<String>,
}

pub struct HenrikLeaderboardRequest {
    pub region: String,
    pub platform: String,
    pub season: Option<String>,
    pub size: Option<u32>,
    pub page: Option<u32>,
    pub start_index: Option<u32>,
    pub name: Option<String>,
    pub tag: Option<String>,
    pub puuid: Option<String>,
}

pub struct HenrikMatchesByNameRequest {
    pub region: String,
    pub platform: String,
    pub name: String,
    pub tag: String,
    pub mode: Option<String>,
    pub map: Option<String>,
    pub size: Option<u32>,
    pub start: Option<u32>,
}

pub struct HenrikMatchesByPuuidRequest {
    pub region: String,
    pub platform: String,
    pub puuid: String,
    pub mode: Option<String>,
    pub map: Option<String>,
    pub size: Option<u32>,
    pub start: Option<u32>,
}

pub struct HenrikMatchRequest {
    pub region: String,
    pub match_id: String,
}

pub struct HenrikMmrByNameRequest {
    pub region: String,
    pub platform: String,
    pub name: String,
    pub tag: String,
}

pub struct HenrikMmrByPuuidRequest {
    pub region: String,
    pub platform: String,
    pub puuid: String,
}

pub struct HenrikMmrHistoryByNameRequest {
    pub region: String,
    pub platform: String,
    pub name: String,
    pub tag: String,
}

pub struct HenrikMmrHistoryByPuuidRequest {
    pub region: String,
    pub platform: String,
    pub puuid: String,
}

pub struct HenrikVlrEntityRequest {
    pub id: String,
}

/// Percent-encoded path segments joined by `/`.
pub open spec fn segments_text(segs: Seq<Seq<char>>) -> Seq<char>
    decreases segs.len(),
{
    if segs.len() == 0 {
        seq![]
    } else if segs.len() == 1 {
        encoded(segs[0])
    } else {
        segments_text(segs.drop_last()) + "/"@ + encoded(segs.last())
    }
}

/// An optional text value.
pub open spec fn opt_text(o: Option<String>) -> Option<Seq<char>> {
    match o {
        Some(s) => Some(s@),
        None => None,
    }
}

/// `bool::to_string`.
pub open spec fn bool_text(b: bool) -> Seq<char> {
    if b {
        "true"@
    } else {
        "false"@
    }
}

/// An optional flag as text.
pub open spec fn opt_bool_text(o: Option<bool>) -> Option<Seq<char>> {
    match o {
        Some(b) => Some(bool_text(b)),
        None => None,
    }
}

/// An optional number as decimal text.
pub open spec fn opt_number_text(o: Option<u32>) -> Option<Seq<char>> {
    match o {
        Some(n) => Some(decimal(n as nat)),
        None => None,
    }
}

/// The query model of a request whose map answers `k` as `params` do.
pub open spec fn query_is(q: StringMap, params: Seq<(Seq<char>, Option<Seq<char>>)>) -> bool {
    q.wf() && forall|k: Seq<char>| #[trigger] q.get_spec(k) == query_lookup(params, k)
}

/// `prefix`, the encoded segments joined by `/`, then `suffix`.
fn segments_path(prefix: &str, segs: &Vec<&str>, suffix: &str) -> (r: String)
    ensures
        r@ == prefix@ + segments_text(segs@.map_values(|s: &str| s@)) + suffix@,
{
    let ghost model = segs@.map_values(|s: &str| s@);
    let mut out: Vec<char> = Vec::new();
    push_str(&mut out, prefix);
    let ghost head = out@;
    let mut i: usize = 0;
    while i < segs.len()
        invariant
            i <= segs.len(),
            model == segs@.map_values(|s: &str| s@),
            out@ == head + segments_text(model.take(i as int)),
        decreases segs.len() - i,
    {
        if i > 0 {
            push_str(&mut out, "/");
        }
        let s = segment(segs[i]);
        push_str(&mut out, s.as_str());
        proof {
            let t = model.take(i + 1);
            assert(t.drop_last() =~= model.take(i as int));
            assert(t.last() == segs@[i as int]@);
            assert(out@ =~= head + segments_text(t));
        }
        i += 1;
    }
    assert(model.take(segs@.len() as int) =~= model);
    push_str(&mut out, suffix);
    string_of(&out)
}

/// `bool::to_string` of an optional flag.
fn opt_bool_string(o: Option<bool>) -> (r: Option<String>)
    ensures
        opt_text(r) == opt_bool_text(o),
{
    match o {
        Some(b) => {
            let cs = if b {
                chars_of("true")
            } else {
                chars_of("false")
            };
            Some(string_of(&cs))
        },
        None => None,
    }
}

/// Decimal text of an optional number.
fn opt_number_string(o: Option<u32>) -> (r: Option<String>)
    ensures
        opt_text(r) == opt_number_text(o),
{
    match o {
        Some(n) => Some(decimal_string(n as u128)),
        None => None,
    }
}

/// An empty query.
fn no_query() -> (r: StringMap)
    ensures
        query_is(r, seq![]),
{
    query(Vec::new())
}

/// The query of the match-list endpoints: `mode`, `map`, `size` and
/// `start`, each where present and not empty.
pub fn matchlist_query(mode: Option<String>, map: Option<String>, size: Option<u32>, start: Option<
    u32,
>) -> (r: StringMap)
    ensures
        query_is(
            r,
            seq![
                ("mode"@, opt_text(mode)),
                ("map"@, opt_text(map)),
                ("size"@, opt_number_text(size)),
                ("start"@, opt_number_text(start)),
            ],
        ),
{
    let ghost g = (mode, map, size, start);
    let size_text = opt_number_string(size);
    let start_text = opt_number_string(start);
    let mut params: Vec<(&str, Option<String>)> = Vec::new();
    params.push(("mode", mode));
    params.push(("map", map));
    params.push(("size", size_text));
    params.push(("start", start_text));
    let r = query(params);
    proof {
        let m = params@.map_values(|p| crate::henrik::client::param_model(p));
        assert(m =~= seq![
            ("mode"@, opt_text(g.0)),
            ("map"@, opt_text(g.1)),
            ("size"@, opt_number_text(g.2)),
            ("start"@, opt_number_text(g.3)),
        ]);
    }
    r
}

impl HenrikAccountByNameRequest {
    /// `GET /valorant/v2/account/{name}/{tag}` with the query `force`.
    pub fn request(self) -> (r: HenrikRequest)
        ensures
            r.path@ == "/valorant/v2/account/"@ + segments_text(seq![self.name@, self.tag@]),
            query_is(r.query, seq![("force"@, opt_bool_text(self.force))]),
    {
        let mut segs: Vec<&str> = Vec::new();
        segs.push(self.name.as_str());
        segs.push(self.tag.as_str());
        let path = segments_path("/valorant/v2/account/", &segs, "");
        let ghost g_force = self.force;
        let mut params: Vec<(&str, Option<String>)> = Vec::new();
        params.push(("force", opt_bool_string(self.force)));
        let query = query(params);
        proof {
            assert(segs@.map_values(|s: &str| s@) =~= seq![self.name@, self.tag@]);
            assert(""@ == Seq::<char>::empty()) by {
                reveal_strlit("");
            }
            assert(params@.map_values(|p| crate::henrik::client::param_model(p)) =~= seq![("force"@, opt_bool_text(g_force))]);
        }
        HenrikRequest { path, query }
    }
}

impl HenrikAccountByPuuidRequest {
    /// `GET /valorant/v2/by-puuid/account/{puuid}` with the query `force`.
    pub fn request(self) -> (r: HenrikRequest)
        ensures
            r.path@ == "/valorant/v2/by-puuid/account/"@ + segments_text(seq![self.puuid@]),
            query_is(r.query, seq![("force"@, opt_bool_text(self.force))]),
    {
        let mut segs: Vec<&str> = Vec::new();
        segs.push(self.puuid.as_str());
        let path = segments_path("/valorant/v2/by-puuid/account/", &segs, "");
        let ghost g_force = self.force;
        let mut params: Vec<(&str, Option<String>)> = Vec::new();
        params.push(("force", opt_bool_string(self.force)));
        let query = query(params);
        proof {
            assert(segs@.map_values(|s: &str| s@) =~= seq![self.puuid@]);
            assert(""@ == Seq::<char>::empty()) by {
                reveal_strlit("");
            }
            assert(params@.map_values(|p| crate::henrik::client::param_model(p)) =~= seq![("force"@, opt_bool_text(g_force))]);
        }
        HenrikRequest { path, query }
    }
}

impl HenrikContentRequest {
    /// `GET /valorant/v1/content` with the query `locale`.
    pub fn request(self) -> (r: HenrikRequest)
        ensures
            r.path@ == "/valorant/v1/content"@,
            query_is(r.query, seq![("locale"@, opt_text(self.locale))]),
    {
        let mut segs: Vec<&str> = Vec::new();
        let path = segments_path("/valorant/v1/content", &segs, "");
        let ghost g_locale = self.locale;
        let mut params: Vec<(&str, Option<String>)> = Vec::new();
        params.push(("locale", self.locale));
        let query = query(params);
        proof {
            assert(segs@.map_values(|s: &str| s@) =~= seq![]);
            assert(""@ == Seq::<char>::empty()) by {
                reveal_strlit("");
            }
            assert(params@.map_values(|p| crate::henrik::client::param_model(p)) =~= seq![("locale"@, opt_text(g_locale))]);
        }
        HenrikRequest { path, query }
    }
}

impl HenrikCrosshairRequest {
    /// `GET /valorant/v1/crosshair/generate` with the query `id`.
    pub fn request(self) -> (r: HenrikRequest)
        ensures
            r.path@ == "/valorant/v1/crosshair/generate"@,
            query_is(r.query, seq![("id"@, opt_text(self.id))]),
    {
        let mut segs: Vec<&str> = Vec::new();
        let path = segments_path("/valorant/v1/crosshair/generate", &segs, "");
        let ghost g_id = self.id;
        let mut params: Vec<(&str, Option<String>)> = Vec::new();
        params.push(("id", self.id));
        let query = query(params);
        proof {
            assert(segs@.map_values(|s: &str| s@) =~= seq![]);
            assert(""@ == Seq::<char>::empty()) by {
                reveal_strlit("");
            }
            assert(params@.map_values(|p| crate::henrik::client::param_model(p)) =~= seq![("id"@, opt_text(g_id))]);
        }
        HenrikRequest { path, query }
    }
}

impl HenrikEsportsScheduleRequest {
    /// `GET /valorant/v1/esports/schedule` with the query `region`, `league`.
    pub fn request(self) -> (r: HenrikRequest)
        ensures
            r.path@ == "/valorant/v1/esports/schedule"@,
            query_is(r.query, seq![("region"@, opt_text(self.region)), ("league"@, opt_text(self.league))]),
    {
        let mut segs: Vec<&str> = Vec::new();
        let path = segments_path("/valorant/v1/esports/schedule", &segs, "");
        let ghost g_region = self.region;
        let ghost g_league = self.league;
        let mut params: Vec<(&str, Option<String>)> = Vec::new();
        params.push(("region", self.region));
        params.push(("league", self.league));
        let query = query(params);
        proof {
            assert(segs@.map_values(|s: &str| s@) =~= seq![]);
            assert(""@ == Seq::<char>::empty()) by {
                reveal_strlit("");
            }
            assert(params@.map_values(|p| crate::henrik::client::param_model(p)) =~= seq![("region"@, opt_text(g_region)), ("league"@, opt_text(g_league))]);
        }
        HenrikRequest { path, query }
    }
}

impl HenrikLeaderboardRequest {
    /// `GET /valorant/v3/leaderboard/{region}/{platform}` with the query `season`, `size`, `page`, `start_index`, `name`, `tag`, `puuid`.
    pub fn request(self) -> (r: HenrikRequest)
        ensures
            r.path@ == "/valorant/v3/leaderboard/"@ + segments_text(seq![self.region@, self.platform@]),
            query_is(r.query, seq![("season"@, opt_text(self.season)), ("size"@, opt_number_text(self.size)), ("page"@, opt_number_text(self.page)), ("start_index"@, opt_number_text(self.start_index)), ("name"@, opt_text(self.name)), ("tag"@, opt_text(self.tag)), ("puuid"@, opt_text(self.puuid))]),
    {
        let mut segs: Vec<&str> = Vec::new();
        segs.push(self.region.as_str());
        segs.push(self.platform.as_str());
        let path = segments_path("/valorant/v3/leaderboard/", &segs, "");
        let ghost g_season = self.season;
        let ghost g_size = self.size;
        let ghost g_page = self.page;
        let ghost g_start_index = self.start_index;
        let ghost g_name = self.name;
        let ghost g_tag = self.tag;
        let ghost g_puuid = self.puuid;
        let mut params: Vec<(&str, Option<String>)> = Vec::new();
        params.push(("season", self.season));
        params.push(("size", opt_number_string(self.size)));
        params.push(("page", opt_number_string(self.page)));
        params.push(("start_index", opt_number_string(self.start_index)));
        params.push(("name", self.name));
        params.push(("tag", self.tag));
        params.push(("puuid", self.puuid));
        let query = query(params);
        proof {
            assert(segs@.map_values(|s: &str| s@) =~= seq![self.region@, self.platform@]);
            assert(""@ == Seq::<char>::empty()) by {
                reveal_strlit("");
            }
            assert(params@.map_values(|p| crate::henrik::client::param_model(p)) =~= seq![("season"@, opt_text(g_season)), ("size"@, opt_number_text(g_size)), ("page"@, opt_number_text(g_page)), ("start_index"@, opt_number_text(g_start_index)), ("name"@, opt_text(g_name)), ("tag"@, opt_text(g_tag)), ("puuid"@, opt_text(g_puuid))]);
        }
        HenrikRequest { path, query }
    }
}

impl HenrikMatchesByNameRequest {
    /// `GET /valorant/v4/matches/{region}/{platform}/{name}/{tag}` with the match-list query.
    pub fn request(self) -> (r: HenrikRequest)
        ensures
            r.path@ == "/valorant/v4/matches/"@ + segments_text(seq![self.region@, self.platform@, self.name@, self.tag@]),
            query_is(r.query, seq![("mode"@, opt_text(self.mode)), ("map"@, opt_text(self.map)), ("size"@, opt_number_text(self.size)), ("start"@, opt_number_text(self.start))]),
    {
        let mut segs: Vec<&str> = Vec::new();
        segs.push(self.region.as_str());
        segs.push(self.platform.as_str());
        segs.push(self.name.as_str());
        segs.push(self.tag.as_str());
        let path = segments_path("/valorant/v4/matches/", &segs, "");
        let query = matchlist_query(self.mode, self.map, self.size, self.start);
        proof {
            assert(segs@.map_values(|s: &str| s@) =~= seq![self.region@, self.platform@, self.name@, self.tag@]);
            assert(""@ == Seq::<char>::empty()) by {
                reveal_strlit("");
            }
        }
        HenrikRequest { path, query }
    }
}

impl HenrikMatchesByPuuidRequest {
    /// `GET /valorant/v4/by-puuid/matches/{region}/{platform}/{puuid}` with the match-list query.
    pub fn request(self) -> (r: HenrikRequest)
        ensures
            r.path@ == "/valorant/v4/by-puuid/matches/"@ + segments_text(seq![self.region@, self.platform@, self.puuid@]),
            query_is(r.query, seq![("mode"@, opt_text(self.mode)), ("map"@, opt_text(self.map)), ("size"@, opt_number_text(self.size)), ("start"@, opt_number_text(self.start))]),
    {
        let mut segs: Vec<&str> = Vec::new();
        segs.push(self.region.as_str());
        segs.push(self.platform.as_str());
        segs.push(self.puuid.as_str());
        let path = segments_path("/valorant/v4/by-puuid/matches/", &segs, "");
        let query = matchlist_query(self.mode, self.map, self.size, self.start);
        proof {
            assert(segs@.map_values(|s: &str| s@) =~= seq![self.region@, self.platform@, self.puuid@]);
            assert(""@ == Seq::<char>::empty()) by {
                reveal_strlit("");
            }
        }
        HenrikRequest { path, query }
    }
}

impl HenrikMatchRequest {
    /// `GET /valorant/v4/match/{region}/{match_id}`.
    pub fn request(self) -> (r: HenrikRequest)
        ensures
            r.path@ == "/valorant/v4/match/"@ + segments_text(seq![self.region@, self.match_id@]),
            query_is(r.query, seq![]),
    {
        let mut segs: Vec<&str> = Vec::new();
        segs.push(self.region.as_str());
        segs.push(self.match_id.as_str());
        let path = segments_path("/valorant/v4/match/", &segs, "");
        let query = no_query();
        proof {
            assert(segs@.map_values(|s: &str| s@) =~= seq![self.region@, self.match_id@]);
            assert(""@ == Seq::<char>::empty()) by {
                reveal_strlit("");
            }
        }
        HenrikRequest { path, query }
    }
}

impl HenrikMmrByNameRequest {
    /// `GET /valorant/v3/mmr/{region}/{platform}/{name}/{tag}`.
    pub fn request(self) -> (r: HenrikRequest)
        ensures
            r.path@ == "/valorant/v3/mmr/"@ + segments_text(seq![self.region@, self.platform@, self.name@, self.tag@]),
            query_is(r.query, seq![]),
    {
        let mut segs: Vec<&str> = Vec::new();
        segs.push(self.region.as_str());
        segs.push(self.platform.as_str());
        segs.push(self.name.as_str());
        segs.push(self.tag.as_str());
        let path = segments_path("/valorant/v3/mmr/", &segs, "");
        let query = no_query();
        proof {
            assert(segs@.map_values(|s: &str| s@) =~= seq![self.region@, self.platform@, self.name@, self.tag@]);
            assert(""@ == Seq::<char>::empty()) by {
                reveal_strlit("");
            }
        }
        HenrikRequest { path, query }
    }
}

impl HenrikMmrByPuuidRequest {
    /// `GET /valorant/v3/by-puuid/mmr/{region}/{platform}/{puuid}`.
    pub fn request(self) -> (r: HenrikRequest)
        ensures
            r.path@ == "/valorant/v3/by-puuid/mmr/"@ + segments_text(seq![self.region@, self.platform@, self.puuid@]),
            query_is(r.query, seq![]),
    {
        let mut segs: Vec<&str> = Vec::new();
        segs.push(self.region.as_str());
        segs.push(self.platform.as_str());
        segs.push(self.puuid.as_str());
        let path = segments_path("/valorant/v3/by-puuid/mmr/", &segs, "");
        let query = no_query();
        proof {
            assert(segs@.map_values(|s: &str| s@) =~= seq![self.region@, self.platform@, self.puuid@]);
            assert(""@ == Seq::<char>::empty()) by {
                reveal_strlit("");
            }
        }
        HenrikRequest { path, query }
    }
}

impl HenrikMmrHistoryByNameRequest {
    /// `GET /valorant/v2/mmr-history/{region}/{platform}/{name}/{tag}`.
    pub fn request(self) -> (r: HenrikRequest)
        ensures
            r.path@ == "/valorant/v2/mmr-history/"@ + segments_text(seq![self.region@, self.platform@, self.name@, self.tag@]),
            query_is(r.query, seq![]),
    {
        let mut segs: Vec<&str> = Vec::new();
        segs.push(self.region.as_str());
        segs.push(self.platform.as_str());
        segs.push(self.name.as_str());
        segs.push(self.tag.as_str());
        let path = segments_path("/valorant/v2/mmr-history/", &segs, "");
        let query = no_query();
        proof {
            assert(segs@.map_values(|s: &str| s@) =~= seq![self.region@, self.platform@, self.name@, self.tag@]);
            assert(""@ == Seq::<char>::empty()) by {
                reveal_strlit("");
            }
        }
        HenrikRequest { path, query }
    }
}

impl HenrikMmrHistoryByPuuidRequest {
    /// `GET /valorant/v2/by-puuid/mmr-history/{region}/{platform}/{puuid}`.
    pub fn request(self) -> (r: HenrikRequest)
        ensures
            r.path@ == "/valorant/v2/by-puuid/mmr-history/"@ + segments_text(seq![self.region@, self.platform@, self.puuid@]),
            query_is(r.query, seq![]),
    {
        let mut segs: Vec<&str> = Vec::new();
        segs.push(self.region.as_str());
        segs.push(self.platform.as_str());
        segs.push(self.puuid.as_str());
        let path = segments_path("/valorant/v2/by-puuid/mmr-history/", &segs, "");
        let query = no_query();
        proof {
            assert(segs@.map_values(|s: &str| s@) =~= seq![self.region@, self.platform@, self.puuid@]);
            assert(""@ == Seq::<char>::empty()) by {
                reveal_strlit("");
            }
        }
        HenrikRequest { path, query }
    }
}

impl HenrikVlrEntityRequest {
    /// `GET /valorant/v2/esports/vlr/events/{id}/matches`.
    pub fn event_matches_request(self) -> (r: HenrikRequest)
        ensures
            r.path@ == "/valorant/v2/esports/vlr/events/"@ + segments_text(seq![self.id@]) + "/matches"@,
            query_is(r.query, seq![]),
    {
        let mut segs: Vec<&str> = Vec::new();
        segs.push(self.id.as_str());
        let path = segments_path("/valorant/v2/esports/vlr/events/", &segs, "/matches");
        let query = no_query();
        proof {
            assert(segs@.map_values(|s: &str| s@) =~= seq![self.id@]);
        }
        HenrikRequest { path, query }
    }

    /// `GET /valorant/v2/esports/vlr/matches/{id}`.
    pub fn match_request(self) -> (r: HenrikRequest)
        ensures
            r.path@ == "/valorant/v2/esports/vlr/matches/"@ + segments_text(seq![self.id@]),
            query_is(r.query, seq![]),
    {
        let mut segs: Vec<&str> = Vec::new();
        segs.push(self.id.as_str());
        let path = segments_path("/valorant/v2/esports/vlr/matches/", &segs, "");
        let query = no_query();
        proof {
            assert(segs@.map_values(|s: &str| s@) =~= seq![self.id@]);
            assert(""@ == Seq::<char>::empty()) by {
                reveal_strlit("");
            }
        }
        HenrikRequest { path, query }
    }

    /// `GET /valorant/v2/esports/vlr/teams/{id}`.
    pub fn team_request(self) -> (r: HenrikRequest)
        ensures
            r.path@ == "/valorant/v2/esports/vlr/teams/"@ + segments_text(seq![self.id@]),
            query_is(r.query, seq![]),
    {
        let mut segs: Vec<&str> = Vec::new();
        segs.push(self.id.as_str());
        let path = segments_path("/valorant/v2/esports/vlr/teams/", &segs, "");
        let query = no_query();
        proof {
            assert(segs@.map_values(|s: &str| s@) =~= seq![self.id@]);
            assert(""@ == Seq::<char>::empty()) by {
                reveal_strlit("");
            }
        }
        HenrikRequest { path, query }
    }

    /// `GET /valorant/v2/esports/vlr/teams/{id}/matches`.
    pub fn team_matches_request(self) -> (r: HenrikRequest)
        ensures
            r.path@ == "/valorant/v2/esports/vlr/teams/"@ + segments_text(seq![self.id@]) + "/matches"@,
            query_is(r.query, seq![]),
    {
        let mut segs: Vec<&str> = Vec::new();
        segs.push(self.id.as_str());
        let path = segments_path("/valorant/v2/esports/vlr/teams/", &segs, "/matches");
        let query = no_query();
        proof {
            assert(segs@.map_values(|s: &str| s@) =~= seq![self.id@]);
        }
        HenrikRequest { path, query }
    }

    /// `GET /valorant/v2/esports/vlr/teams/{id}/transactions`.
    pub fn team_transactions_request(self) -> (r: HenrikRequest)
        ensures
            r.path@ == "/valorant/v2/esports/vlr/teams/"@ + segments_text(seq![self.id@]) + "/transactions"@,
            query_is(r.query, seq![]),
    {
        let mut segs: Vec<&str> = Vec::new();
        segs.push(self.id.as_str());
        let path = segments_path("/valorant/v2/esports/vlr/teams/", &segs, "/transactions");
        let query = no_query();
        proof {
            assert(segs@.map_values(|s: &str| s@) =~= seq![self.id@]);
        }
        HenrikRequest { path, query }
    }

    /// `GET /valorant/v2/esports/vlr/players/{id}`.
    pub fn player_request(self) -> (r: HenrikRequest)
        ensures
            r.path@ == "/valorant/v2/esports/vlr/players/"@ + segments_text(seq![self.id@]),
            query_is(r.query, seq![]),
    {
        let mut segs: Vec<&str> = Vec::new();
        segs.push(self.id.as_str());
        let path = segments_path("/valorant/v2/esports/vlr/players/", &segs, "");
        let query = no_query();
        proof {
            assert(segs@.map_values(|s: &str| s@) =~= seq![self.id@]);
            assert(""@ == Seq::<char>::empty()) by {
                reveal_strlit("");
            }
        }
        HenrikRequest { path, query }
    }

    /// `GET /valorant/v2/esports/vlr/players/{id}/matches`.
    pub fn player_matches_request(self) -> (r: HenrikRequest)
        ensures
            r.path@ == "/valorant/v2/esports/vlr/players/"@ + segments_text(seq![self.id@]) + "/matches"@,
            query_is(r.query, seq![]),
    {
        let mut segs: Vec<&str> = Vec::new();
        segs.push(self.id.as_str());
        let path = segments_path("/valorant/v2/esports/vlr/players/", &segs, "/matches");
        let query = no_query();
        proof {
            assert(segs@.map_values(|s: &str| s@) =~= seq![self.id@]);
        }
        HenrikRequest { path, query }
    }
}

/// `GET /valorant/v2/esports/vlr/events`.
pub fn vlr_events_request() -> (r: HenrikRequest)
    ensures
        r.path@ == "/valorant/v2/esports/vlr/events"@,
        query_is(r.query, seq![]),
{
    let cs = chars_of("/valorant/v2/esports/vlr/events");
    HenrikRequest { path: string_of(&cs), query: no_query() }
}

} // verus!
