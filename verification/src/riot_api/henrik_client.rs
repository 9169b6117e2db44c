//! The client of the Henrik API: its addresses, when its key can be used,
//! how long it waits after a refused request, and the totals of a player's
//! recent competitive matches.
use vstd::prelude::*;
use vstd::utf8::encode_utf8;

use crate::codec::utf8_bytes;
use crate::riot::response::header_value_ok;
use crate::riot_api::models::matchlist::{EntryPlayer, MatchEntry, MatchTeamData};
use crate::text::{concat2, concat3, str_eq};

verus! {

/// The address of `path` on the Henrik API.
pub fn henrik_url(path: &str) -> (r: String)
    ensures
        r@ == "https://api.henrikdev.xyz/valorant"@ + path@,
{
    concat2("https://api.henrikdev.xyz/valorant", path)
}

/// Path of the account of a player.
pub fn account_path(puuid: &str) -> (r: String)
    ensures
        r@ == "/v2/by-puuid/account/"@ + puuid@,
{
    concat2("/v2/by-puuid/account/", puuid)
}

/// Path of the last ten matches of a player, of one mode if one is given.
pub open spec fn matchlist_path_text(region: Seq<char>, puuid: Seq<char>, mode: Option<Seq<char>>) -> Seq<char> {
    match mode {
        None => "/v3/by-puuid/matches/"@ + region + "/"@ + puuid + "?size=10"@,
        Some(m) => "/v3/by-puuid/matches/"@ + region + "/"@ + puuid + "?mode="@ + m + "&size=10"@,
    }
}

/// Path of the last ten matches of a player, of one mode if one is given.
pub fn matchlist_path(region: &str, puuid: &str, mode: Option<&str>) -> (r: String)
    ensures
        r@ == matchlist_path_text(
            region@,
            puuid@,
            match mode {
                Some(m) => Some(m@),
                None => None,
            },
        ),
{
    let head = concat3("/v3/by-puuid/matches/", region, "/");
    let base = concat2(head.as_str(), puuid);
    match mode {
        None => concat2(base.as_str(), "?size=10"),
        Some(m) => {
            let with_mode = concat3(base.as_str(), "?mode=", m);
            concat2(with_mode.as_str(), "&size=10")
        },
    }
}

/// Seconds to wait before a refused request is sent again: a minute when
/// the rate limit was hit (429), else five.
pub fn retry_wait_secs(status: u16) -> (r: u64)
    ensures
        status == 429 ==> r == 60,
        status != 429 ==> r == 5,
{
    if status == 429 {
        60
    } else {
        5
    }
}

/// Whether an API key is long enough to be used: 41 bytes or more.
pub open spec fn key_usable(key: Seq<char>) -> bool {
    encode_utf8(key).len() >= 41
}

/// What the build of the client does with the key read from its file.
pub enum HenrikKeyStep {
    /// The key is too short: wait five seconds and read it again.
    WaitAndRetry { wait_secs: u64 },
    /// Install the client with this `Authorization` value.
    Install(String),
}

/// Decides on the key read from the key file; a long enough key must be a
/// valid header value.
pub fn henrik_key_step(key: &str) -> (r: HenrikKeyStep)
    requires
        key_usable(key@) ==> header_value_ok(key@),
    ensures
        !key_usable(key@) ==> r == (HenrikKeyStep::WaitAndRetry { wait_secs: 5 }),
        key_usable(key@) ==> (r matches HenrikKeyStep::Install(h) && h@ == key@),
{
    if utf8_bytes(key).len() < 41 {
        HenrikKeyStep::WaitAndRetry { wait_secs: 5 }
    } else {
        HenrikKeyStep::Install(key.to_owned())
    }
}

/// Totals over a player's matches, as mathematical integers.
pub struct Tally {
    pub rounds: int,
    pub wins: int,
    pub loses: int,
    pub kills: int,
    pub deaths: int,
    pub damage: int,
    pub min_kills: int,
    pub max_kills: int,
    pub min_deaths: int,
    pub max_deaths: int,
    pub headshots: int,
    pub bodyshots: int,
    pub legshots: int,
}

/// Index of the first player with the given PUUID.
pub open spec fn player_index(players: Seq<EntryPlayer>, puuid: Seq<char>) -> Option<int>
    decreases players.len(),
{
    if players.len() == 0 {
        None
    } else if players[0].puuid@ == puuid {
        Some(0)
    } else {
        match player_index(players.drop_first(), puuid) {
            Some(i) => Some(i + 1),
            None => None,
        }
    }
}

/// Whether the statistics can read an entry: an available match has its
/// metadata, teams and players, and the player is among them.
pub open spec fn entry_readable(entry: MatchEntry, puuid: Seq<char>) -> bool {
    entry.is_available ==> {
        &&& entry.metadata is Some
        &&& entry.teams is Some
        &&& entry.players matches Some(ps) && player_index(ps@, puuid) is Some
    }
}

/// The player's line of an entry.
pub open spec fn my_line(entry: MatchEntry, puuid: Seq<char>) -> EntryPlayer {
    let ps = entry.players->Some_0@;
    ps[player_index(ps, puuid)->Some_0]
}

/// The result of the player's team: red when the player plays red, else blue.
pub open spec fn my_team(entry: MatchEntry, puuid: Seq<char>) -> MatchTeamData {
    if my_line(entry, puuid).team@ == "Red"@ {
        entry.teams->Some_0.red
    } else {
        entry.teams->Some_0.blue
    }
}

/// Totals before any match.
pub open spec fn empty_tally() -> Tally {
    Tally {
        rounds: 0,
        wins: 0,
        loses: 0,
        kills: 0,
        deaths: 0,
        damage: 0,
        min_kills: 0,
        max_kills: 0,
        min_deaths: 0,
        max_deaths: 0,
        headshots: 0,
        bodyshots: 0,
        legshots: 0,
    }
}

pub open spec fn min_int(a: int, b: int) -> int {
    if a <= b {
        a
    } else {
        b
    }
}

pub open spec fn max_int(a: int, b: int) -> int {
    if a >= b {
        a
    } else {
        b
    }
}

/// The totals after one more entry; an unavailable match adds nothing.
pub open spec fn tally_step(t: Tally, entry: MatchEntry, puuid: Seq<char>) -> Tally {
    if !entry.is_available {
        t
    } else {
        let line = my_line(entry, puuid);
        let won = my_team(entry, puuid).has_won;
        Tally {
            rounds: t.rounds + entry.metadata->Some_0.rounds_played,
            wins: t.wins + if won { 1int } else { 0int },
            loses: t.loses + if won { 0int } else { 1int },
            kills: t.kills + line.stats.kills,
            deaths: t.deaths + line.stats.deaths,
            damage: t.damage + line.damage_made,
            min_kills: min_int(t.min_kills, line.stats.kills as int),
            max_kills: max_int(t.max_kills, line.stats.kills as int),
            min_deaths: min_int(t.min_deaths, line.stats.deaths as int),
            max_deaths: max_int(t.max_deaths, line.stats.deaths as int),
            headshots: t.headshots + line.stats.headshots,
            bodyshots: t.bodyshots + line.stats.bodyshots,
            legshots: t.legshots + line.stats.legshots,
        }
    }
}

/// The totals over a sequence of entries, in order.
pub open spec fn tally(entries: Seq<MatchEntry>, puuid: Seq<char>) -> Tally
    decreases entries.len(),
{
    if entries.len() == 0 {
        empty_tally()
    } else {
        tally_step(tally(entries.drop_last(), puuid), entries.last(), puuid)
    }
}

pub open spec fn fits_i32(v: int) -> bool {
    i32::MIN <= v <= i32::MAX
}

/// Whether every total can be held in an `i32`.
pub open spec fn tally_fits(t: Tally) -> bool {
    &&& fits_i32(t.rounds)
    &&& fits_i32(t.wins)
    &&& fits_i32(t.loses)
    &&& fits_i32(t.kills)
    &&& fits_i32(t.deaths)
    &&& fits_i32(t.damage)
    &&& fits_i32(t.headshots)
    &&& fits_i32(t.bodyshots)
    &&& fits_i32(t.legshots)
}

/// The integer statistics of a player's matches; `score_rounds` holds, for
/// each match played, the player's score and the rounds of the match, from
/// which the per-round score is computed.
#[derive(Debug, Clone)]
pub struct MatchTotals {
    pub matches: i32,
    pub rounds_played: i32,
    pub wins: i32,
    pub loses: i32,
    pub kills: i32,
    pub deaths: i32,
    pub total_damage: i32,
    pub min_kills: i32,
    pub max_kills: i32,
    pub min_deaths: i32,
    pub max_deaths: i32,
    pub headshot: i32,
    pub bodyshot: i32,
    pub legshot: i32,
    pub total_shot: i32,
    pub score_rounds: Vec<(i32, i32)>,
}

/// Whether `m` holds the totals `t`.
pub open spec fn totals_hold(m: MatchTotals, t: Tally) -> bool {
    &&& m.rounds_played == t.rounds
    &&& m.wins == t.wins
    &&& m.loses == t.loses
    &&& m.kills == t.kills
    &&& m.deaths == t.deaths
    &&& m.total_damage == t.damage
    &&& m.min_kills == t.min_kills
    &&& m.max_kills == t.max_kills
    &&& m.min_deaths == t.min_deaths
    &&& m.max_deaths == t.max_deaths
    &&& m.headshot == t.headshots
    &&& m.bodyshot == t.bodyshots
    &&& m.legshot == t.legshots
}

/// The (score, rounds) pairs of the matches played, in order.
pub open spec fn score_rounds_of(entries: Seq<MatchEntry>, puuid: Seq<char>) -> Seq<(i32, i32)>
    decreases entries.len(),
{
    if entries.len() == 0 {
        seq![]
    } else {
        let rest = score_rounds_of(entries.drop_last(), puuid);
        let e = entries.last();
        if e.is_available {
            rest.push((my_line(e, puuid).stats.score, e.metadata->Some_0.rounds_played))
        } else {
            rest
        }
    }
}

fn find_player(players: &Vec<EntryPlayer>, puuid: &str) -> (r: usize)
    requires
        player_index(players@, puuid@) is Some,
    ensures
        player_index(players@, puuid@) == Some(r as int),
        r < players@.len(),
{
    let ghost all = players@;
    let mut i: usize = 0;
    assert(all.skip(0) =~= all);
    while i < players.len()
        invariant
            i <= players.len(),
            players@ == all,
            player_index(all, puuid@) is Some,
            player_index(all, puuid@) == match player_index(all.skip(i as int), puuid@) {
                Some(j) => Some(j + i),
                None => None,
            },
        decreases players.len() - i,
    {
        assert(all.skip(i as int)[0] == all[i as int]);
        if str_eq(players[i].puuid.as_str(), puuid) {
            return i;
        }
        assert(all.skip(i as int).drop_first() =~= all.skip(i + 1));
        i += 1;
    }
    assert(all.skip(i as int).len() == 0);
    0
}

/// Sums a player's statistics over the entries of a match list. Every
/// available match must carry what is read of it, and no running total
/// (nor the sum of the three shot counts) may leave the range of `i32`.
pub fn match_totals(entries: &Vec<MatchEntry>, puuid: &str) -> (r: MatchTotals)
    requires
        forall|i: int| 0 <= i < entries@.len() ==> entry_readable(#[trigger] entries@[i], puuid@),
        forall|k: int| 0 <= k <= entries@.len() ==> tally_fits(#[trigger] tally(entries@.take(k), puuid@)),
        fits_i32(tally(entries@, puuid@).headshots + tally(entries@, puuid@).legshots),
        fits_i32(
            tally(entries@, puuid@).headshots + tally(entries@, puuid@).legshots + tally(
                entries@,
                puuid@,
            ).bodyshots,
        ),
    ensures
        r.matches == entries@.len() as i32,
        totals_hold(r, tally(entries@, puuid@)),
        r.total_shot == tally(entries@, puuid@).headshots + tally(entries@, puuid@).legshots + tally(
            entries@,
            puuid@,
        ).bodyshots,
        r.score_rounds@ == score_rounds_of(entries@, puuid@),
{
    let mut out = MatchTotals {
        matches: entries.len() as i32,
        rounds_played: 0,
        wins: 0,
        loses: 0,
        kills: 0,
        deaths: 0,
        total_damage: 0,
        min_kills: 0,
        max_kills: 0,
        min_deaths: 0,
        max_deaths: 0,
        headshot: 0,
        bodyshot: 0,
        legshot: 0,
        total_shot: 0,
        score_rounds: Vec::new(),
    };
    let mut i: usize = 0;
    assert(entries@.take(0) =~= seq![]);
    while i < entries.len()
        invariant
            i <= entries.len(),
            out.matches == entries@.len() as i32,
            forall|j: int| 0 <= j < entries@.len() ==> entry_readable(#[trigger] entries@[j], puuid@),
            forall|k: int|
                0 <= k <= entries@.len() ==> tally_fits(#[trigger] tally(entries@.take(k), puuid@)),
            totals_hold(out, tally(entries@.take(i as int), puuid@)),
            out.score_rounds@ == score_rounds_of(entries@.take(i as int), puuid@),
            out.total_shot == 0,
        decreases entries.len() - i,
    {
        let ghost before = tally(entries@.take(i as int), puuid@);
        assert(entries@.take(i + 1).drop_last() =~= entries@.take(i as int));
        assert(entries@.take(i + 1).last() == entries@[i as int]);
        let ghost after = tally(entries@.take(i + 1), puuid@);
        assert(tally_fits(after));
        let entry = &entries[i];
        if entry.is_available {
            assert(entry_readable(entries@[i as int], puuid@));
            let rounds = match &entry.metadata {
                Some(m) => m.rounds_played,
                None => 0,
            };
            let line = match &entry.players {
                Some(ps) => {
                    let k = find_player(ps, puuid);
                    &ps[k]
                },
                None => {
                    return out;
                },
            };
            let won = match &entry.teams {
                Some(t) => if str_eq(line.team.as_str(), "Red") {
                    t.red.has_won
                } else {
                    t.blue.has_won
                },
                None => false,
            };
            let stats = &line.stats;
            out.rounds_played = out.rounds_played + rounds;
            if won {
                out.wins = out.wins + 1;
            } else {
                out.loses = out.loses + 1;
            }
            out.kills = out.kills + stats.kills;
            out.deaths = out.deaths + stats.deaths;
            out.total_damage = out.total_damage + line.damage_made;
            if stats.kills < out.min_kills {
                out.min_kills = stats.kills;
            }
            if stats.kills > out.max_kills {
                out.max_kills = stats.kills;
            }
            if stats.deaths < out.min_deaths {
                out.min_deaths = stats.deaths;
            }
            if stats.deaths > out.max_deaths {
                out.max_deaths = stats.deaths;
            }
            out.headshot = out.headshot + stats.headshots;
            out.bodyshot = out.bodyshot + stats.bodyshots;
            out.legshot = out.legshot + stats.legshots;
            out.score_rounds.push((stats.score, rounds));
        }
        i += 1;
    }
    assert(entries@.take(entries@.len() as int) =~= entries@);
    out.total_shot = out.headshot + out.legshot + out.bodyshot;
    out
}

/// Number of entries that are available matches.
pub open spec fn available_count(entries: Seq<MatchEntry>) -> int
    decreases entries.len(),
{
    if entries.len() == 0 {
        0
    } else {
        available_count(entries.drop_last()) + if entries.last().is_available {
            1int
        } else {
            0int
        }
    }
}

/// Every available match counts once, as a win or as a loss; the least
/// and greatest kills and deaths are taken with zero, so they bracket it.
pub proof fn law_each_match_won_or_lost(entries: Seq<MatchEntry>, puuid: Seq<char>)
    ensures
        tally(entries, puuid).wins + tally(entries, puuid).loses == available_count(entries),
        tally(entries, puuid).min_kills <= 0 <= tally(entries, puuid).max_kills,
        tally(entries, puuid).min_deaths <= 0 <= tally(entries, puuid).max_deaths,
    decreases entries.len(),
{
    if entries.len() > 0 {
        law_each_match_won_or_lost(entries.drop_last(), puuid);
    }
}

/// The index `player_index` gives holds a player with that PUUID, and no
/// earlier player has it.
proof fn lemma_player_index_finds(players: Seq<EntryPlayer>, puuid: Seq<char>)
    ensures
        player_index(players, puuid) matches Some(i) ==> 0 <= i < players.len() && players[i].puuid@
            == puuid && forall|j: int| 0 <= j < i ==> #[trigger] players[j].puuid@ != puuid,
    decreases players.len(),
{
    if players.len() > 0 && players[0].puuid@ != puuid {
        lemma_player_index_finds(players.drop_first(), puuid);
        if player_index(players, puuid) is Some {
            let i = player_index(players, puuid)->Some_0;
            assert forall|j: int| 0 <= j < i implies #[trigger] players[j].puuid@ != puuid by {
                if j > 0 {
                    assert(players[j] == players.drop_first()[j - 1]);
                }
            }
            assert(players[i] == players.drop_first()[i - 1]);
        }
    }
}

/// Adding one more match to the list counts it as a win exactly when the
/// team the player plays for (red when the player's team is "Red", blue
/// otherwise) has won it, and as a loss otherwise; an unavailable match is
/// counted as neither. `r0` and `r1` are the totals over the list without
/// and with the match.
pub proof fn law_match_counted_by_players_team(
    entries: Seq<MatchEntry>,
    e: MatchEntry,
    puuid: Seq<char>,
    r0: MatchTotals,
    r1: MatchTotals,
)
    requires
        entry_readable(e, puuid),
        totals_hold(r0, tally(entries, puuid)),
        totals_hold(r1, tally(entries.push(e), puuid)),
    ensures
        e.is_available ==> {
            let teams = e.teams->Some_0;
            let won = if my_line(e, puuid).team@ == "Red"@ {
                teams.red.has_won
            } else {
                teams.blue.has_won
            };
            &&& r1.wins == r0.wins + if won { 1int } else { 0int }
            &&& r1.loses == r0.loses + if won { 0int } else { 1int }
        },
        !e.is_available ==> r1.wins == r0.wins && r1.loses == r0.loses,
        e.is_available ==> my_line(e, puuid).puuid@ == puuid,
{
    if e.is_available {
        lemma_player_index_finds(e.players->Some_0@, puuid);
    }
    assert(entries.push(e).drop_last() =~= entries);
    assert(entries.push(e).last() == e);
}

} // verus!
