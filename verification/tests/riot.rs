use valmonitor::errors::AppError;
use valmonitor::json::JsonValue;
use valmonitor::models::auth::{AccountInfo, AuthSnapshot, EntitlementsResponse, UserInfoResponse};
use valmonitor::models::lockfile::LockfileData;
use valmonitor::models::presence::{ExternalSession, LaunchConfiguration, PresenceEntry};
use valmonitor::models::pvp::StorefrontResponse;
use valmonitor::riot::assets::{asset_client_error, asset_url, playercard_path};
use valmonitor::riot::auth::{auth_url, bearer_authorization};
use valmonitor::riot::local::{extract_region, has_region_argument, local_authorization, local_url, select_region_session};
use valmonitor::riot::presence::{decode_private_presence, find_my_presence, gamestate_from};
use valmonitor::riot::pvp::{
    after_storefront_v2, after_storefront_v3, current_match_document, extract_match_id, glz_url,
    loadout_path, match_lookup_step, mmr_path, pvp_headers, pvp_url, start_match_lookup, storefront_v2_path,
    storefront_v3_path, MatchAction, MatchLookup, MatchPhase, StorefrontStep, RIOT_CLIENT_PLATFORM,
};
use valmonitor::riot::pvp::{pvp_retry_step, start_pvp_request, PvpRetry, PvpRetryAction, PvpRetryEvent};
use valmonitor::riot::response::{check_response, checked_header, parse_failure, scope, RiotApi};
use valmonitor::riot::session::{RegionSource, ValorantApi};
use valmonitor::riot::watcher::{
    lockfile_path, lockfile_read_error, probe_delay, start_tick, tick_step, tolerate, TickAction, TickEvent,
    TickStage,
};

fn s(v: &str) -> JsonValue {
    JsonValue::Str(v.to_string())
}

fn obj(entries: Vec<(&str, JsonValue)>) -> JsonValue {
    JsonValue::Object(entries.into_iter().map(|(k, v)| (k.to_string(), v)).collect())
}

fn session_with_args(args: Vec<&str>) -> JsonValue {
    obj(vec![(
        "launchConfiguration",
        obj(vec![("arguments", JsonValue::Array(args.into_iter().map(s).collect()))]),
    )])
}

fn storefront() -> StorefrontResponse {
    StorefrontResponse { featured_bundle: None, skins_panel_layout: None, bonus_store: None }
}

#[test]
fn region_argument_is_detected() {
    assert!(has_region_argument(&session_with_args(vec!["-x", "-ares-deployment=ap"])));
    assert!(has_region_argument(&session_with_args(vec!["ares-deployment=eu"])));
    assert!(!has_region_argument(&session_with_args(vec!["-config-endpoint=x"])));
    assert!(!has_region_argument(&obj(vec![])));
}

#[test]
fn region_session_skips_host_app() {
    let sessions = vec![
        ("host_app".to_string(), session_with_args(vec!["-ares-deployment=na"])),
        ("valorant".to_string(), session_with_args(vec!["-ares-deployment=ap"])),
    ];
    let chosen = select_region_session(sessions).unwrap();
    assert_eq!(chosen, session_with_args(vec!["-ares-deployment=ap"]));
}

#[test]
fn region_session_missing() {
    let sessions = vec![("host_app".to_string(), session_with_args(vec!["-ares-deployment=na"]))];
    assert_eq!(
        select_region_session(sessions).unwrap_err(),
        AppError::RiotSessionNotReady("Valorant external session with region was not found".to_string())
    );
}

fn external(args: Vec<&str>) -> ExternalSession {
    ExternalSession {
        launch_configuration: LaunchConfiguration { arguments: args.into_iter().map(String::from).collect() },
    }
}

#[test]
fn region_is_read_from_arguments() {
    assert_eq!(extract_region(external(vec!["a", "-ares-deployment=kr"])).unwrap(), "kr");
    assert_eq!(extract_region(external(vec!["0", "1", "2", "3", "x=eu=1"])).unwrap(), "eu");
    assert_eq!(
        extract_region(external(vec!["a"])).unwrap_err(),
        AppError::InvalidResponse("region argument not found".to_string())
    );
    assert_eq!(
        extract_region(external(vec!["0", "1", "2", "3", "plain"])).unwrap_err(),
        AppError::InvalidResponse("invalid region format".to_string())
    );
}

#[test]
fn local_addresses_and_headers() {
    assert_eq!(local_url("5000", "/chat/v4/presences"), "https://127.0.0.1:5000/chat/v4/presences");
    let lockfile = LockfileData::parse("Riot Client:1:5000:abc:https".to_string()).unwrap();
    let h = local_authorization(&lockfile).unwrap();
    assert_eq!(h, ("Authorization".to_string(), "Basic cmlvdDphYmM=".to_string()));
    assert_eq!(auth_url("/userinfo"), "https://auth.riotgames.com/userinfo");
    assert_eq!(
        bearer_authorization("tok").unwrap(),
        ("Authorization".to_string(), "Bearer tok".to_string())
    );
    assert_eq!(
        bearer_authorization("bad\ntoken").unwrap_err(),
        AppError::Header("failed to parse header value".to_string())
    );
    assert_eq!(checked_header("X", "ok".to_string()).unwrap(), ("X".to_string(), "ok".to_string()));
}

fn presence(puuid: &str, private: Option<&str>) -> PresenceEntry {
    PresenceEntry { puuid: puuid.to_string(), private: private.map(String::from), extra: vec![] }
}

#[test]
fn my_presence_is_found() {
    let found = find_my_presence(vec![presence("a", None), presence("b", Some("x"))], "b").unwrap();
    assert_eq!(found.private, Some("x".to_string()));
    assert_eq!(
        find_my_presence(vec![presence("a", None)], "z").unwrap_err(),
        AppError::InvalidResponse("my presence was not found".to_string())
    );
}

#[test]
fn private_presence_is_decoded() {
    // {"matchPresenceData":{"sessionLoopState":"INGAME"}}
    let encoded = "eyJtYXRjaFByZXNlbmNlRGF0YSI6eyJzZXNzaW9uTG9vcFN0YXRlIjoiSU5HQU1FIn19";
    let v = decode_private_presence(&presence("a", Some(encoded))).unwrap();
    assert_eq!(gamestate_from(Ok(v)).unwrap(), "INGAME");
}

#[test]
fn private_presence_errors() {
    assert_eq!(
        decode_private_presence(&presence("a", None)).unwrap_err(),
        AppError::InvalidResponse("private presence is missing".to_string())
    );
    assert!(matches!(decode_private_presence(&presence("a", Some("%%%"))), Err(AppError::Base64(_))));
    // "/w==" is the single byte 0xFF, which is not UTF-8
    assert!(matches!(decode_private_presence(&presence("a", Some("/w=="))), Err(AppError::Utf8(_))));
    // "bm9wZQ==" is "nope", which is not JSON
    assert!(matches!(decode_private_presence(&presence("a", Some("bm9wZQ=="))), Err(AppError::InvalidResponse(_))));
}

#[test]
fn gamestate_defaults_and_errors() {
    assert_eq!(gamestate_from(Err(AppError::LockfileNotFound)).unwrap(), "IDLE");
    assert_eq!(
        gamestate_from(Ok(obj(vec![]))).unwrap_err(),
        AppError::InvalidResponse("sessionLoopState is missing".to_string())
    );
}

#[test]
fn pvp_addresses() {
    assert_eq!(pvp_url("ap", "/mmr/v1/players/x"), "https://pd.ap.a.pvp.net/mmr/v1/players/x");
    assert_eq!(glz_url("eu", "/p"), "https://glz-eu-1.eu.a.pvp.net/p");
    assert_eq!(mmr_path("u"), "/mmr/v1/players/u");
    assert_eq!(loadout_path("u"), "/personalization/v2/players/u/playerloadout");
    assert_eq!(storefront_v2_path("u"), "/store/v2/storefront/u");
    assert_eq!(storefront_v3_path("u"), "/store/v3/storefront/u");
}

#[test]
fn pvp_headers_in_order() {
    let snap = AuthSnapshot {
        access_token: "acc".to_string(),
        entitlements_token: "ent".to_string(),
        puuid: "p".to_string(),
        game_name: "n".to_string(),
        tag_line: "t".to_string(),
    };
    let h = pvp_headers(&snap, "release-1").unwrap();
    assert_eq!(h[0], ("Authorization".to_string(), "Bearer acc".to_string()));
    assert_eq!(h[1], ("X-Riot-Entitlements-JWT".to_string(), "ent".to_string()));
    assert_eq!(h[2], ("X-Riot-ClientPlatform".to_string(), RIOT_CLIENT_PLATFORM.to_string()));
    assert_eq!(h[3], ("X-Riot-ClientVersion".to_string(), "release-1".to_string()));
    assert!(matches!(pvp_headers(&snap, "bad\r\n"), Err(AppError::Header(_))));
}

#[test]
fn storefront_falls_back_only_on_404() {
    let not_found = AppError::RiotSessionNotReady("PVP API returned status 404 for /store/v2/storefront/u: x".to_string());
    assert!(matches!(after_storefront_v2(Err(not_found)), StorefrontStep::TryV3));
    let other = AppError::RiotSessionNotReady("PVP API returned status 500 for x".to_string());
    match after_storefront_v2(Err(other)) {
        StorefrontStep::Failed(AppError::StorefrontUnavailable(m)) => {
            assert_eq!(m, "Riot session is not ready yet: PVP API returned status 500 for x")
        }
        _ => panic!("expected a failure"),
    }
    assert!(matches!(after_storefront_v2(Ok(storefront())), StorefrontStep::Done(_)));
    assert!(matches!(
        after_storefront_v3(Err(AppError::LockfileNotFound)),
        Err(AppError::StorefrontUnavailable(_))
    ));
}

#[test]
fn match_lookup_falls_back_to_pregame() {
    let (state, action) = start_match_lookup("me");
    assert!(matches!(&action, MatchAction::Fetch(p) if p == "/core-game/v1/players/me"));
    let (state, action) = match_lookup_step(state, "me", Err(AppError::LockfileNotFound));
    assert!(matches!(&action, MatchAction::Fetch(p) if p == "/pregame/v1/players/me"));
    let player = obj(vec![("MatchID", s("m1"))]);
    let (state, action) = match_lookup_step(state, "me", Ok(player));
    assert!(matches!(&action, MatchAction::Fetch(p) if p == "/pregame/v1/matches/m1"));
    let (state, action) = match_lookup_step(state, "me", Ok(obj(vec![("ID", s("m1"))])));
    assert!(matches!(state, MatchLookup::Done));
    match action {
        MatchAction::Finish(Ok(doc)) => {
            assert_eq!(doc.index("mode").as_str(), Some("pregame"));
            assert_eq!(doc.index("match").index("ID").as_str(), Some("m1"));
            assert_eq!(doc.index("player").index("MatchID").as_str(), Some("m1"));
        }
        _ => panic!("expected the match document"),
    }
}

#[test]
fn match_lookup_without_match_id() {
    let (state, _) = start_match_lookup("me");
    let (_, action) = match_lookup_step(state, "me", Ok(obj(vec![])));
    match action {
        MatchAction::Finish(Err(e)) => {
            assert_eq!(e, AppError::RiotSessionNotReady("current match id is missing".to_string()))
        }
        _ => panic!("expected an error"),
    }
    assert_eq!(extract_match_id(&obj(vec![("MatchID", s("x"))])).unwrap(), "x");
    let doc = current_match_document(MatchPhase::CoreGame, s("p"), s("g"));
    assert_eq!(doc.index("mode").as_str(), Some("core-game"));
}

#[test]
fn response_checks() {
    assert_eq!(scope(RiotApi::Local), "riot-local");
    assert_eq!(
        check_response(RiotApi::Local, "/x", 404, "body").unwrap_err(),
        AppError::RiotSessionNotReady("Riot Local API returned status 404 for /x".to_string())
    );
    assert_eq!(
        check_response(RiotApi::Pvp, "/x", 500, "oops").unwrap_err(),
        AppError::RiotSessionNotReady("PVP API returned status 500 for /x: oops".to_string())
    );
    assert_eq!(
        check_response(RiotApi::Auth, "/userinfo", 200, "   ").unwrap_err(),
        AppError::RiotSessionNotReady("Riot auth API returned an empty response for /userinfo".to_string())
    );
    assert!(check_response(RiotApi::Assets, "/v1/version", 200, "").is_ok());
    assert_eq!(
        parse_failure(RiotApi::Local, "/p", "bad", "body"),
        AppError::InvalidResponse("failed to parse /p: bad; body starts with: body".to_string())
    );
    assert_eq!(
        parse_failure(RiotApi::Assets, "/p", "bad", "body"),
        AppError::InvalidResponse("failed to parse asset /p: bad".to_string())
    );
}

#[test]
fn asset_addresses() {
    assert_eq!(asset_url("/v1/version"), "https://valorant-api.com/v1/version");
    assert_eq!(playercard_path("abc"), "/v1/playercards/abc");
    assert_eq!(
        asset_client_error("tls"),
        AppError::InvalidResponse("failed to build asset client: tls".to_string())
    );
}

fn lockfile_text() -> String {
    "Riot Client:10:5000:pw:https".to_string()
}

#[test]
fn full_probe_sets_up_the_session() {
    let mut state = ValorantApi::new();
    let (stage, action) = start_tick();
    assert!(matches!(action, TickAction::ReadLockfile));
    let (stage, action) = tick_step(&mut state, stage, TickEvent::Lockfile(Ok(lockfile_text())));
    assert!(matches!(&action, TickAction::ConnectLocal(h) if h == "Basic cmlvdDpwdw=="));
    let (stage, action) = tick_step(&mut state, stage, TickEvent::Connected(Ok(())));
    assert!(matches!(action, TickAction::FetchEntitlements));
    assert_eq!(state.raw_lockfile, lockfile_text());
    let ent = EntitlementsResponse { access_token: "acc".to_string(), token: "jwt".to_string(), subject: "me".to_string() };
    let (stage, action) = tick_step(&mut state, stage, TickEvent::Entitlements(Ok(ent)));
    assert!(matches!(&action, TickAction::ConnectAuth(h) if h == "Bearer acc"));
    let (stage, action) = tick_step(&mut state, stage, TickEvent::Connected(Ok(())));
    assert!(matches!(action, TickAction::FetchUserinfo));
    let info = UserInfoResponse { acct: AccountInfo { game_name: "Name".to_string(), tag_line: "JP1".to_string() } };
    let (stage, action) = tick_step(&mut state, stage, TickEvent::Userinfo(Ok(info)));
    assert!(matches!(action, TickAction::BuildPvpClient));
    let (_, action) = tick_step(&mut state, stage, TickEvent::PvpClientBuilt(Ok(())));
    assert!(matches!(action, TickAction::Finish(Ok(()))));
    assert!(state.is_initialized());
    assert_eq!(state.full_username(), "Name#JP1");
    assert_eq!(state.puuid(), "me");

    // the same lockfile and player again: nothing to do
    let (stage, _) = start_tick();
    let (stage, action) = tick_step(&mut state, stage, TickEvent::Lockfile(Ok(lockfile_text())));
    assert!(matches!(action, TickAction::FetchEntitlements));
    let ent = EntitlementsResponse { access_token: "acc".to_string(), token: "jwt".to_string(), subject: "me".to_string() };
    let (_, action) = tick_step(&mut state, stage, TickEvent::Entitlements(Ok(ent)));
    assert!(matches!(action, TickAction::Finish(Ok(()))));
}

#[test]
fn probe_tolerates_a_session_not_ready() {
    let mut state = ValorantApi::new();
    let (stage, _) = tick_step(&mut state, TickStage::ReadLockfile, TickEvent::Lockfile(Ok(lockfile_text())));
    let (stage, _) = tick_step(&mut state, stage, TickEvent::Connected(Ok(())));
    let (_, action) = tick_step(
        &mut state,
        stage,
        TickEvent::Entitlements(Err(AppError::RiotSessionNotReady("later".to_string()))),
    );
    assert!(matches!(action, TickAction::Finish(Ok(()))));
    assert!(!state.is_initialized());
}

#[test]
fn probe_reports_a_short_lockfile() {
    let mut state = ValorantApi::new();
    let (_, action) = tick_step(&mut state, TickStage::ReadLockfile, TickEvent::Lockfile(Ok("a:b".to_string())));
    assert!(matches!(action, TickAction::Finish(Err(AppError::InvalidResponse(_)))));
}

#[test]
fn watcher_delays() {
    let d = probe_delay(&Ok(()));
    assert_eq!((d.seconds, d.clear_session), (1, false));
    let d = probe_delay(&Err(AppError::LockfileNotFound));
    assert_eq!((d.seconds, d.clear_session), (5, true));
    let d = probe_delay(&Err(AppError::RiotSessionNotReady("x".to_string())));
    assert_eq!((d.seconds, d.clear_session), (2, false));
    assert_eq!(tolerate(AppError::RiotSessionNotReady("x".to_string())), Ok(()));
    assert_eq!(tolerate(AppError::LockfileNotFound), Err(AppError::LockfileNotFound));
    assert_eq!(
        lockfile_path("C:\\Users\\me\\AppData\\Local"),
        "C:\\Users\\me\\AppData\\Local\\Riot Games\\Riot Client\\Config\\lockfile"
    );
    assert_eq!(lockfile_read_error(true, "gone"), AppError::LockfileNotFound);
    assert_eq!(lockfile_read_error(false, "denied"), AppError::Io("denied".to_string()));
}

#[test]
fn clearing_twice_is_clearing_once() {
    let mut state = ValorantApi::new();
    let lockfile = LockfileData::parse(lockfile_text()).unwrap();
    state.set_local_session(lockfile);
    state.clear_session_state();
    assert_eq!(state.raw_lockfile, "");
    assert!(state.local_session.is_none());
    state.clear_session_state();
    assert_eq!(state.raw_lockfile, "");
    assert!(!state.is_initialized());
}

#[test]
fn refresh_is_not_needed_right_after_setting_the_session() {
    let mut state = ValorantApi::new();
    let lockfile = LockfileData::parse(lockfile_text()).unwrap();
    state.set_local_session(lockfile.clone());
    assert!(!state.needs_refresh(&lockfile, ""));
    assert!(state.needs_refresh(&lockfile, "someone"));
    state.cache_region("ap".to_string());
    assert_eq!(state.region, Some("ap".to_string()));
}

#[test]
fn cached_region_is_answered_without_a_request() {
    let mut state = ValorantApi::new();
    assert!(matches!(state.region_source(), RegionSource::Fetch));
    state.cache_region("eu".to_string());
    assert!(matches!(state.region_source(), RegionSource::Cached(r) if r == "eu"));
    let lockfile = LockfileData::parse(lockfile_text()).unwrap();
    state.set_local_session(lockfile);
    assert!(matches!(state.region_source(), RegionSource::Fetch));
}

#[test]
fn pvp_request_succeeds_first_time() {
    let (stage, action) = start_pvp_request::<u32>();
    assert!(matches!(stage, PvpRetry::First) && matches!(action, PvpRetryAction::Send));
    let (stage, action) = pvp_retry_step(stage, PvpRetryEvent::Answered(Ok(7u32)));
    assert!(matches!(stage, PvpRetry::Done));
    assert!(matches!(action, PvpRetryAction::Finish(Ok(7))));
}

#[test]
fn pvp_request_is_retried_once_after_a_rebuild() {
    let fail = || AppError::InvalidResponse("403".to_string());
    let (stage, _) = start_pvp_request::<u32>();
    let (stage, action) = pvp_retry_step(stage, PvpRetryEvent::<u32>::Answered(Err(fail())));
    assert!(matches!(stage, PvpRetry::Rebuilding) && matches!(action, PvpRetryAction::Rebuild));
    let (stage, action) = pvp_retry_step(stage, PvpRetryEvent::<u32>::Rebuilt(Ok(())));
    assert!(matches!(stage, PvpRetry::Second) && matches!(action, PvpRetryAction::SendAfterPause));
    let (stage, action) = pvp_retry_step(stage, PvpRetryEvent::<u32>::Answered(Err(fail())));
    assert!(matches!(stage, PvpRetry::Done));
    assert!(matches!(action, PvpRetryAction::Finish(Err(AppError::InvalidResponse(m))) if m == "403"));
}

#[test]
fn pvp_request_ends_when_the_rebuild_fails() {
    let (stage, _) = start_pvp_request::<u32>();
    let (stage, _) = pvp_retry_step(stage, PvpRetryEvent::<u32>::Answered(Err(AppError::InvalidResponse("x".to_string()))));
    let (stage, action) =
        pvp_retry_step(stage, PvpRetryEvent::<u32>::Rebuilt(Err(AppError::InvalidResponse("no version".to_string()))));
    assert!(matches!(stage, PvpRetry::Done));
    assert!(matches!(action, PvpRetryAction::Finish(Err(AppError::InvalidResponse(m))) if m == "no version"));
}
