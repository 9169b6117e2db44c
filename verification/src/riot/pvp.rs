//! The PVP and GLZ APIs: their addresses and headers, the storefront
//! fallback from v2 to v3, and the lookup of the current match.
use vstd::prelude::*;

use crate::errors::{session_not_ready, AppError, AppResult};
use crate::json::JsonValue;
use crate::models::auth::AuthSnapshot;
use crate::models::pvp::StorefrontResponse;
use crate::riot::auth::bearer_value;
use crate::riot::response::{checked_header, header_error_message, header_value_ok};
use crate::text::{chars_of, concat2, concat3, contains_chars, contains_text};

verus! {

/// The `X-Riot-ClientPlatform` header value: base64 JSON describing a
/// Windows PC.
pub const RIOT_CLIENT_PLATFORM: &'static str = "ew0KCSJwbGF0Zm9ybVR5cGUiOiAiUEMiLA0KCSJwbGF0Zm9ybU9TIjogIldpbmRvd3MiLA0KCSJwbGF0Zm9ybU9TVmVyc2lvbiI6ICIxMC4wLjE5MDQyLjEuMjU2LjY0Yml0IiwNCgkicGxhdGZvcm1DaGlwc2V0IjogIlVua25vd24iDQp9";

/// The address of `path` on the PVP API of `region`.
pub open spec fn pvp_url_text(region: Seq<char>, path: Seq<char>) -> Seq<char> {
    "https://pd."@ + region + ".a.pvp.net"@ + path
}

/// The address of `path` on the GLZ API of `region`.
pub open spec fn glz_url_text(region: Seq<char>, path: Seq<char>) -> Seq<char> {
    "https://glz-"@ + region + "-1."@ + region + ".a.pvp.net"@ + path
}

/// The address of `path` on the PVP API of `region`.
pub fn pvp_url(region: &str, path: &str) -> (r: String)
    ensures
        r@ == pvp_url_text(region@, path@),
{
    let host = concat3("https://pd.", region, ".a.pvp.net");
    concat2(host.as_str(), path)
}

/// The address of `path` on the GLZ API of `region`.
pub fn glz_url(region: &str, path: &str) -> (r: String)
    ensures
        r@ == glz_url_text(region@, path@),
{
    let head = concat3("https://glz-", region, "-1.");
    let host = concat3(head.as_str(), region, ".a.pvp.net");
    concat2(host.as_str(), path)
}

/// Path of the competitive record of a player.
pub fn mmr_path(puuid: &str) -> (r: String)
    ensures
        r@ == "/mmr/v1/players/"@ + puuid@,
{
    concat2("/mmr/v1/players/", puuid)
}

/// Path of the loadout of a player.
pub fn loadout_path(puuid: &str) -> (r: String)
    ensures
        r@ == "/personalization/v2/players/"@ + puuid@ + "/playerloadout"@,
{
    concat3("/personalization/v2/players/", puuid, "/playerloadout")
}

/// Path of the v2 storefront of a player.
pub fn storefront_v2_path(puuid: &str) -> (r: String)
    ensures
        r@ == "/store/v2/storefront/"@ + puuid@,
{
    concat2("/store/v2/storefront/", puuid)
}

/// Path of the v3 storefront of a player.
pub fn storefront_v3_path(puuid: &str) -> (r: String)
    ensures
        r@ == "/store/v3/storefront/"@ + puuid@,
{
    concat2("/store/v3/storefront/", puuid)
}

/// The four headers of the PVP and GLZ APIs, in the order they are set.
pub open spec fn pvp_header_pairs(snapshot: AuthSnapshot, client_version: Seq<char>) -> Seq<
    (Seq<char>, Seq<char>),
> {
    seq![
        ("Authorization"@, bearer_value(snapshot.access_token@)),
        ("X-Riot-Entitlements-JWT"@, snapshot.entitlements_token@),
        ("X-Riot-ClientPlatform"@, RIOT_CLIENT_PLATFORM@),
        ("X-Riot-ClientVersion"@, client_version),
    ]
}

/// The headers of the PVP and GLZ APIs for a session and a client version;
/// a value that cannot stand in a header is an error.
pub fn pvp_headers(snapshot: &AuthSnapshot, client_version: &str) -> (r: AppResult<
    Vec<(String, String)>,
>)
    ensures
        r is Ok <==> (forall|i: int|
            0 <= i < 4 ==> header_value_ok(#[trigger] pvp_header_pairs(*snapshot, client_version@)[i].1)),
        r matches Ok(h) ==> h@.len() == 4 && forall|i: int|
            0 <= i < 4 ==> (#[trigger] h@[i]).0@ == pvp_header_pairs(*snapshot, client_version@)[i].0
                && h@[i].1@ == pvp_header_pairs(*snapshot, client_version@)[i].1,
        r matches Err(e) ==> e matches AppError::Header(m) && m@ == header_error_message(),
{
    let ghost pairs = pvp_header_pairs(*snapshot, client_version@);
    let mut out: Vec<(String, String)> = Vec::new();
    match checked_header("Authorization", concat2("Bearer ", snapshot.access_token.as_str())) {
        Ok(h) => out.push(h),
        Err(e) => {
            assert(!header_value_ok(pairs[0].1));
            return Err(e);
        },
    }
    match checked_header("X-Riot-Entitlements-JWT", snapshot.entitlements_token.clone()) {
        Ok(h) => out.push(h),
        Err(e) => {
            assert(!header_value_ok(pairs[1].1));
            return Err(e);
        },
    }
    match checked_header("X-Riot-ClientPlatform", RIOT_CLIENT_PLATFORM.to_owned()) {
        Ok(h) => out.push(h),
        Err(e) => {
            assert(!header_value_ok(pairs[2].1));
            return Err(e);
        },
    }
    match checked_header("X-Riot-ClientVersion", client_version.to_owned()) {
        Ok(h) => out.push(h),
        Err(e) => {
            assert(!header_value_ok(pairs[3].1));
            return Err(e);
        },
    }
    assert(forall|i: int| 0 <= i < 4 ==> #[trigger] header_value_ok(pairs[i].1));
    Ok(out)
}

/// What follows an answer of the v2 storefront.
pub enum StorefrontStep {
    /// The storefront was read.
    Done(StorefrontResponse),
    /// The v2 endpoint is not there (status 404): ask the v3 endpoint.
    TryV3,
    /// The storefront is unavailable.
    Failed(AppError),
}

/// Whether an error from the v2 storefront asks for the v3 endpoint: the
/// session-not-ready error of a 404 answer.
pub open spec fn asks_for_v3(error: AppError) -> bool {
    error matches AppError::RiotSessionNotReady(m) && contains_text(m@, "status 404"@)
}

/// Decides what follows an answer of the v2 storefront.
pub fn after_storefront_v2(result: AppResult<StorefrontResponse>) -> (r: StorefrontStep)
    ensures
        result matches Ok(s) ==> r == StorefrontStep::Done(s),
        result matches Err(e) ==> (asks_for_v3(e) ==> r is TryV3),
        result matches Err(e) ==> (!asks_for_v3(e) ==> (r matches StorefrontStep::Failed(f) && (f matches AppError::StorefrontUnavailable(
            m,
        ) && m@ == e.message_text()))),
{
    match result {
        Ok(storefront) => StorefrontStep::Done(storefront),
        Err(error) => {
            let not_found = match &error {
                AppError::RiotSessionNotReady(message) => {
                    let text = chars_of(message.as_str());
                    let pattern = chars_of("status 404");
                    contains_chars(&text, &pattern)
                },
                _ => false,
            };
            if not_found {
                StorefrontStep::TryV3
            } else {
                StorefrontStep::Failed(AppError::StorefrontUnavailable(error.message()))
            }
        },
    }
}

/// The storefront from the answer of the v3 endpoint; any error there
/// means the storefront is unavailable.
pub fn after_storefront_v3(result: AppResult<StorefrontResponse>) -> (r: AppResult<StorefrontResponse>)
    ensures
        result matches Ok(s) ==> r == Ok::<StorefrontResponse, AppError>(s),
        result matches Err(e) ==> (r matches Err(f) && (f matches AppError::StorefrontUnavailable(m)
            && m@ == e.message_text())),
{
    match result {
        Ok(storefront) => Ok(storefront),
        Err(error) => Err(AppError::StorefrontUnavailable(error.message())),
    }
}

/// The id of the match a player document of the GLZ API points at.
pub open spec fn match_id_of(player: JsonValue) -> Option<Seq<char>> {
    player.at("MatchID"@).str_value()
}

/// The `MatchID` of a player document of the GLZ API.
pub fn extract_match_id(player: &JsonValue) -> (r: AppResult<String>)
    ensures
        match_id_of(*player) matches Some(id) ==> (r matches Ok(s) && s@ == id),
        match_id_of(*player) is None ==> (r matches Err(e) && (e matches AppError::RiotSessionNotReady(m)
            && m@ == "current match id is missing"@)),
{
    match player.index("MatchID").as_str() {
        Some(id) => Ok(id.to_owned()),
        None => Err(session_not_ready("current match id is missing")),
    }
}

/// The phase of a match the GLZ API knows the player in.
#[derive(Debug, Clone, Copy, PartialEq, Eq)]
pub enum MatchPhase {
    CoreGame,
    Pregame,
}

/// The name of a phase in paths and in the match document.
pub open spec fn phase_text(phase: MatchPhase) -> Seq<char> {
    match phase {
        MatchPhase::CoreGame => "core-game"@,
        MatchPhase::Pregame => "pregame"@,
    }
}

/// Path of the player document of a phase.
pub open spec fn player_path(phase: MatchPhase, puuid: Seq<char>) -> Seq<char> {
    match phase {
        MatchPhase::CoreGame => "/core-game/v1/players/"@ + puuid,
        MatchPhase::Pregame => "/pregame/v1/players/"@ + puuid,
    }
}

/// Path of the match document of a phase.
pub open spec fn match_path(phase: MatchPhase, match_id: Seq<char>) -> Seq<char> {
    match phase {
        MatchPhase::CoreGame => "/core-game/v1/matches/"@ + match_id,
        MatchPhase::Pregame => "/pregame/v1/matches/"@ + match_id,
    }
}

/// The player document, the match document and the mode of the match
/// document of a phase all name that same phase: the paths lie under
/// `/<phase>/v1/`, the core-game ones under `/core-game/` and the pregame
/// ones under `/pregame/`, and the two phases have different names.
pub proof fn law_paths_follow_phase(phase: MatchPhase, puuid: Seq<char>, match_id: Seq<char>)
    ensures
        player_path(phase, puuid) == "/"@ + phase_text(phase) + "/v1/players/"@ + puuid,
        match_path(phase, match_id) == "/"@ + phase_text(phase) + "/v1/matches/"@ + match_id,
        phase == MatchPhase::CoreGame ==> match_path(phase, match_id).subrange(0, 11) == "/core-game/"@
            && player_path(phase, puuid).subrange(0, 11) == "/core-game/"@,
        phase == MatchPhase::Pregame ==> match_path(phase, match_id).subrange(0, 9) == "/pregame/"@
            && player_path(phase, puuid).subrange(0, 9) == "/pregame/"@,
        phase_text(MatchPhase::CoreGame) != phase_text(MatchPhase::Pregame),
{
    reveal_strlit("/");
    reveal_strlit("core-game");
    reveal_strlit("pregame");
    reveal_strlit("/v1/players/");
    reveal_strlit("/v1/matches/");
    reveal_strlit("/core-game/v1/players/");
    reveal_strlit("/core-game/v1/matches/");
    reveal_strlit("/pregame/v1/players/");
    reveal_strlit("/pregame/v1/matches/");
    reveal_strlit("/core-game/");
    reveal_strlit("/pregame/");
    assert(player_path(phase, puuid) =~= "/"@ + phase_text(phase) + "/v1/players/"@ + puuid);
    assert(match_path(phase, match_id) =~= "/"@ + phase_text(phase) + "/v1/matches/"@ + match_id);
    if phase == MatchPhase::CoreGame {
        assert(match_path(phase, match_id).subrange(0, 11) =~= "/core-game/"@);
        assert(player_path(phase, puuid).subrange(0, 11) =~= "/core-game/"@);
    } else {
        assert(match_path(phase, match_id).subrange(0, 9) =~= "/pregame/"@);
        assert(player_path(phase, puuid).subrange(0, 9) =~= "/pregame/"@);
    }
    assert("core-game"@.len() != "pregame"@.len());
}

/// Whether `doc` is the document of the current match: an object with the
/// members `match`, `mode` and `player`, in that (sorted) order.
pub open spec fn is_match_document(doc: JsonValue, mode: Seq<char>, player: JsonValue, game: JsonValue) -> bool {
    &&& doc matches JsonValue::Object(entries)
    &&& entries@.len() == 3
    &&& entries@[0].0@ == "match"@ && entries@[0].1 == game
    &&& entries@[1].0@ == "mode"@
    &&& entries@[1].1 matches JsonValue::Str(s) && s@ == mode
    &&& entries@[2].0@ == "player"@ && entries@[2].1 == player
}

/// Path of the player document of a phase.
pub fn phase_player_path(phase: MatchPhase, puuid: &str) -> (r: String)
    ensures
        r@ == player_path(phase, puuid@),
{
    match phase {
        MatchPhase::CoreGame => concat2("/core-game/v1/players/", puuid),
        MatchPhase::Pregame => concat2("/pregame/v1/players/", puuid),
    }
}

/// Path of the match document of a phase.
pub fn phase_match_path(phase: MatchPhase, match_id: &str) -> (r: String)
    ensures
        r@ == match_path(phase, match_id@),
{
    match phase {
        MatchPhase::CoreGame => concat2("/core-game/v1/matches/", match_id),
        MatchPhase::Pregame => concat2("/pregame/v1/matches/", match_id),
    }
}

/// The document of the current match: `{ "mode", "player", "match" }`.
pub fn current_match_document(phase: MatchPhase, player: JsonValue, game: JsonValue) -> (r: JsonValue)
    ensures
        is_match_document(r, phase_text(phase), player, game),
{
    let mode = match phase {
        MatchPhase::CoreGame => "core-game".to_owned(),
        MatchPhase::Pregame => "pregame".to_owned(),
    };
    let mut entries: Vec<(String, JsonValue)> = Vec::new();
    entries.push(("match".to_owned(), game));
    entries.push(("mode".to_owned(), JsonValue::Str(mode)));
    entries.push(("player".to_owned(), player));
    JsonValue::Object(entries)
}

/// Where the lookup of the current match stands.
pub enum MatchLookup {
    /// Waiting for the player document of a phase.
    Player(MatchPhase),
    /// Waiting for the match document of a phase; holds the player document.
    Match(MatchPhase, JsonValue),
    /// The lookup is over.
    Done,
}

/// What the caller does next.
pub enum MatchAction {
    /// Fetch this GLZ path and hand its answer to `match_lookup_step`.
    Fetch(String),
    /// The lookup is over with this result.
    Finish(AppResult<JsonValue>),
}

/// The first request of the lookup: the core-game document of the player.
pub fn start_match_lookup(puuid: &str) -> (r: (MatchLookup, MatchAction))
    ensures
        r.0 == MatchLookup::Player(MatchPhase::CoreGame),
        r.1 matches MatchAction::Fetch(p) && p@ == player_path(MatchPhase::CoreGame, puuid@),
{
    (MatchLookup::Player(MatchPhase::CoreGame), MatchAction::Fetch(phase_player_path(MatchPhase::CoreGame, puuid)))
}

/// One step of the lookup of the current match. The core-game documents
/// are tried first; only when the core-game player document cannot be had
/// are the pregame documents asked for.
pub fn match_lookup_step(state: MatchLookup, puuid: &str, reply: AppResult<JsonValue>) -> (r: (
    MatchLookup,
    MatchAction,
))
    ensures
        match state {
            MatchLookup::Player(phase) => match reply {
                Ok(player) => match match_id_of(player) {
                    Some(id) => r.0 == MatchLookup::Match(phase, player) && (r.1 matches MatchAction::Fetch(p)
                        && p@ == match_path(phase, id)),
                    None => r.0 == MatchLookup::Done && (r.1 matches MatchAction::Finish(Err(e)) && (e matches AppError::RiotSessionNotReady(
                        m,
                    ) && m@ == "current match id is missing"@)),
                },
                Err(e) => if phase == MatchPhase::CoreGame {
                    r.0 == MatchLookup::Player(MatchPhase::Pregame) && (r.1 matches MatchAction::Fetch(p)
                        && p@ == player_path(MatchPhase::Pregame, puuid@))
                } else {
                    r.0 == MatchLookup::Done && r.1 == MatchAction::Finish(Err(e))
                },
            },
            MatchLookup::Match(phase, player) => r.0 == MatchLookup::Done && match reply {
                Ok(game) => r.1 matches MatchAction::Finish(Ok(doc)) && is_match_document(
                    doc,
                    phase_text(phase),
                    player,
                    game,
                ),
                Err(e) => r.1 == MatchAction::Finish(Err(e)),
            },
            MatchLookup::Done => r.0 == MatchLookup::Done && r.1 == MatchAction::Finish(reply),
        },
{
    match state {
        MatchLookup::Player(phase) => match reply {
            Ok(player) => match extract_match_id(&player) {
                Ok(id) => {
                    let path = phase_match_path(phase, id.as_str());
                    (MatchLookup::Match(phase, player), MatchAction::Fetch(path))
                },
                Err(e) => (MatchLookup::Done, MatchAction::Finish(Err(e))),
            },
            Err(e) => match phase {
                MatchPhase::CoreGame => (
                    MatchLookup::Player(MatchPhase::Pregame),
                    MatchAction::Fetch(phase_player_path(MatchPhase::Pregame, puuid)),
                ),
                MatchPhase::Pregame => (MatchLookup::Done, MatchAction::Finish(Err(e))),
            },
        },
        MatchLookup::Match(phase, player) => match reply {
            Ok(game) => (MatchLookup::Done, MatchAction::Finish(Ok(current_match_document(phase, player, game)))),
            Err(e) => (MatchLookup::Done, MatchAction::Finish(Err(e))),
        },
        MatchLookup::Done => (MatchLookup::Done, MatchAction::Finish(reply)),
    }
}

/// Where a PVP request with its one retry stands.
pub enum PvpRetry {
    /// The first attempt was sent.
    First,
    /// The first attempt failed; the PVP client is being rebuilt.
    Rebuilding,
    /// The second and last attempt was sent.
    Second,
    /// The request is over.
    Done,
}

/// What came back for a PVP request.
pub enum PvpRetryEvent<T> {
    /// The answer to an attempt.
    Answered(AppResult<T>),
    /// The outcome of rebuilding the PVP client.
    Rebuilt(AppResult<()>),
}

/// What the caller of a PVP request does next.
pub enum PvpRetryAction<T> {
    /// Send the request.
    Send,
    /// Rebuild the PVP client (fresh tokens and client version).
    Rebuild,
    /// Wait a quarter of a second, then send the request again.
    SendAfterPause,
    /// The request is over with this result.
    Finish(AppResult<T>),
}

/// Whether `event` is what `state` waits for: an answer after a send, the
/// outcome of the rebuild while rebuilding.
pub open spec fn retry_event_fits<T>(state: PvpRetry, event: PvpRetryEvent<T>) -> bool {
    match state {
        PvpRetry::First | PvpRetry::Second => event is Answered,
        PvpRetry::Rebuilding => event is Rebuilt,
        PvpRetry::Done => false,
    }
}

/// A PVP request starts by sending it.
pub fn start_pvp_request<T>() -> (r: (PvpRetry, PvpRetryAction<T>))
    ensures
        r.0 == PvpRetry::First,
        r.1 == PvpRetryAction::<T>::Send,
{
    (PvpRetry::First, PvpRetryAction::Send)
}

/// One step of a PVP request. A failed first attempt rebuilds the PVP
/// client once and sends the request again after a pause; the answer to
/// that second attempt, success or not, is the result. A failed rebuild
/// ends the request with its error.
pub fn pvp_retry_step<T>(state: PvpRetry, event: PvpRetryEvent<T>) -> (r: (PvpRetry, PvpRetryAction<T>))
    requires
        retry_event_fits(state, event),
    ensures
        match (state, event) {
            (PvpRetry::First, PvpRetryEvent::Answered(Ok(v))) => r.0 == PvpRetry::Done && r.1
                == PvpRetryAction::Finish(Ok(v)),
            (PvpRetry::First, PvpRetryEvent::Answered(Err(_))) => r.0 == PvpRetry::Rebuilding && r.1
                == PvpRetryAction::<T>::Rebuild,
            (PvpRetry::Rebuilding, PvpRetryEvent::Rebuilt(Ok(_))) => r.0 == PvpRetry::Second && r.1
                == PvpRetryAction::<T>::SendAfterPause,
            (PvpRetry::Rebuilding, PvpRetryEvent::Rebuilt(Err(e))) => r.0 == PvpRetry::Done && r.1
                == PvpRetryAction::<T>::Finish(Err(e)),
            (PvpRetry::Second, PvpRetryEvent::Answered(res)) => r.0 == PvpRetry::Done && r.1
                == PvpRetryAction::Finish(res),
            _ => false,
        },
{
    // The arms that answer `Send` to an unexpected event are ruled out by
    // `retry_event_fits`.
    match state {
        PvpRetry::First => match event {
            PvpRetryEvent::Answered(Ok(v)) => (PvpRetry::Done, PvpRetryAction::Finish(Ok(v))),
            PvpRetryEvent::Answered(Err(_)) => (PvpRetry::Rebuilding, PvpRetryAction::Rebuild),
            PvpRetryEvent::Rebuilt(_) => (PvpRetry::Done, PvpRetryAction::Send),
        },
        PvpRetry::Rebuilding => match event {
            PvpRetryEvent::Rebuilt(Ok(_)) => (PvpRetry::Second, PvpRetryAction::SendAfterPause),
            PvpRetryEvent::Rebuilt(Err(e)) => (PvpRetry::Done, PvpRetryAction::Finish(Err(e))),
            PvpRetryEvent::Answered(_) => (PvpRetry::Done, PvpRetryAction::Send),
        },
        PvpRetry::Second => match event {
            PvpRetryEvent::Answered(res) => (PvpRetry::Done, PvpRetryAction::Finish(res)),
            PvpRetryEvent::Rebuilt(_) => (PvpRetry::Done, PvpRetryAction::Send),
        },
        PvpRetry::Done => (PvpRetry::Done, PvpRetryAction::Send),
    }
}

} // verus!
