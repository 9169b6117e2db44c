use valmonitor::json::JsonValue;
use valmonitor::riot_api::asset_client::AssetClient;
use valmonitor::riot_api::data::{AuthToken, UserData};
use valmonitor::riot_api::henrik_client::{
    account_path, henrik_key_step, henrik_url, match_totals, matchlist_path, retry_wait_secs, HenrikKeyStep,
};
use valmonitor::riot_api::local_client::{
    basic_header_value, find_valorant_presence, gamestate_of, local_build_step, local_request_url,
    local_socket_address, lockfile_credentials, private_presence_text, region_from_sessions, start_local_build,
    LocalBuildAction, LocalBuildEvent, LocalBuildStage,
};
use valmonitor::riot_api::models::local::{AccountAlias, Entitlements, MatchPresenceData, PresenceData, PrivatePresence};
use valmonitor::riot_api::models::matchlist::{
    EntryPlayer, MatchEntry, MatchMetadata, MatchPlayerStats, MatchPremierInfo, MatchTeamData, MatchTeams,
};
use valmonitor::riot_api::monitor::{check_lockfile, finish_rebuild, henrik_key_changed, LockfileCheck};
use valmonitor::riot_api::pvp_client::{next_attempt, pvp_client_headers, request_url, shard};
use valmonitor::riot_api::response::{unknown, RequestError, RiotResponse};
use valmonitor::riot_api::shared::{finish_send, must_wait_for_reset, send_step, SendStep, SharedGameData};

fn s(v: &str) -> JsonValue {
    JsonValue::Str(v.to_string())
}

fn obj(entries: Vec<(&str, JsonValue)>) -> JsonValue {
    JsonValue::Object(entries.into_iter().map(|(k, v)| (k.to_string(), v)).collect())
}

#[test]
fn send_step_decisions() {
    let mut shared = SharedGameData::new();
    assert!(matches!(send_step(&mut shared, 200, false), SendStep::Deliver));
    assert!(!shared.should_reset());
    assert!(matches!(send_step(&mut shared, 403, false), SendStep::RetryAfterReset { wait_secs: 3 }));
    assert!(shared.should_reset());
    assert!(must_wait_for_reset(&shared, false));
    assert!(!must_wait_for_reset(&shared, true));
    let mut shared = SharedGameData::new();
    match send_step(&mut shared, 500, true) {
        SendStep::Fail(e) => assert_eq!(e, RequestError::Unknown("Failed to send request".to_string())),
        _ => panic!("expected a failure"),
    }
    let mut shared = SharedGameData::new();
    finish_send(&mut shared, true);
    assert!(shared.should_reset());
    finish_rebuild(&mut shared);
    assert!(!shared.should_reset());
}

#[test]
fn request_error_messages() {
    assert_eq!(RequestError::FailedWithStatus(404).message(), "request failed with status code: 404 Not Found");
    assert_eq!(RequestError::Json("eof".to_string()).message(), "json parse failed: eof");
    assert_eq!(unknown("x").message(), "An error has occurred: x");
    assert_eq!(RequestError::Request("timeout".to_string()).message(), "request failed: timeout");
}

#[test]
fn response_text() {
    let ok = RiotResponse { bytes: "héllo".as_bytes().to_vec(), status: 200 };
    assert_eq!(ok.get_text().unwrap(), "héllo");
    let bad = RiotResponse { bytes: vec![0xff, 0xfe], status: 200 };
    assert!(bad.get_text().is_err());
}

#[test]
fn local_addresses() {
    assert_eq!(local_socket_address("51000"), "127.0.0.1:51000");
    assert_eq!(local_request_url("51000", "/entitlements/v1/token"), "https://127.0.0.1:51000/entitlements/v1/token");
    assert_eq!(
        lockfile_credentials("Riot Client:9:51000:secret:https"),
        ("51000".to_string(), "secret".to_string())
    );
    assert_eq!(basic_header_value("secret"), "Basic cmlvdDpzZWNyZXQ=");
}

#[test]
fn local_build_runs_through() {
    let mut shared = SharedGameData::new();
    let (stage, action) = start_local_build();
    assert!(matches!(action, LocalBuildAction::ReadLockfile));
    let (stage, action) = local_build_step(
        &mut shared,
        stage,
        LocalBuildEvent::Lockfile(Ok("Riot Client:9:51000:secret:https".to_string())),
    );
    assert!(matches!(&action, LocalBuildAction::InstallClient(h) if h == "Basic cmlvdDpzZWNyZXQ="));
    assert_eq!(shared.auth_data.lockfile_port, "51000");
    let (stage, action) = local_build_step(&mut shared, stage, LocalBuildEvent::ClientInstalled);
    assert!(matches!(action, LocalBuildAction::FetchEntitlements));
    let ent = Entitlements { access_token: "acc".to_string(), token: "jwt".to_string(), subject: "me".to_string() };
    let (stage, action) = local_build_step(&mut shared, stage, LocalBuildEvent::Entitlements(Ok(ent)));
    assert!(matches!(action, LocalBuildAction::FetchAlias));
    assert_eq!(shared.auth_data.access_token, "acc");
    let alias = AccountAlias {
        active: true,
        created_datetime: 0,
        game_name: "Name".to_string(),
        summoner: false,
        tag_line: "JP1".to_string(),
    };
    let (stage, action) = local_build_step(&mut shared, stage, LocalBuildEvent::Alias(Ok(alias)));
    assert!(matches!(action, LocalBuildAction::FetchRegion));
    let (stage, action) = local_build_step(&mut shared, stage, LocalBuildEvent::Region(Err(unknown("later"))));
    assert!(matches!(action, LocalBuildAction::FetchRegion));
    let (stage, action) = local_build_step(&mut shared, stage, LocalBuildEvent::Region(Ok("ap".to_string())));
    assert!(matches!(stage, LocalBuildStage::Done));
    assert!(matches!(action, LocalBuildAction::Finish(Ok(()))));
    assert_eq!(
        shared.user_data,
        UserData { puuid: "me".to_string(), name: "Name".to_string(), tag: "JP1".to_string(), region: "ap".to_string() }
    );
    assert_eq!(shared.get_region(), "ap");
    assert_eq!(shared.user_data.full_username(), "Name#JP1");
}

#[test]
fn local_build_errors() {
    let mut shared = SharedGameData::new();
    let (_, action) =
        local_build_step(&mut shared, LocalBuildStage::ReadLockfile, LocalBuildEvent::Lockfile(Err("gone".to_string())));
    assert!(matches!(&action, LocalBuildAction::Finish(Err(m)) if m == "[LocalClient::build] I CANT READ LOCKFILE: gone"));
    let (_, action) = local_build_step(
        &mut shared,
        LocalBuildStage::Entitlements,
        LocalBuildEvent::Entitlements(Err(RequestError::FailedWithStatus(500))),
    );
    assert!(matches!(&action, LocalBuildAction::Finish(Err(m))
        if m == "Failed to obtain entitlements data: request failed with status code: 500 Internal Server Error"));
}

fn sessions(key: &str, args: Vec<&str>) -> JsonValue {
    obj(vec![
        (key, obj(vec![(
            "launchConfiguration",
            obj(vec![("arguments", JsonValue::Array(args.into_iter().map(s).collect()))]),
        )])),
        ("host_app", obj(vec![])),
    ])
}

#[test]
fn region_from_external_sessions() {
    assert_eq!(
        region_from_sessions(&sessions("aaa", vec!["0", "1", "2", "3", "-ares-deployment=ap"])).unwrap(),
        "ap"
    );
    assert_eq!(
        region_from_sessions(&s("x")).unwrap_err(),
        RequestError::Unknown("Failed to obtain session json".to_string())
    );
    assert_eq!(
        region_from_sessions(&obj(vec![("host_app", obj(vec![]))])).unwrap_err(),
        RequestError::Unknown("Cannot find key".to_string())
    );
    assert_eq!(
        region_from_sessions(&obj(vec![("v", obj(vec![]))])).unwrap_err(),
        RequestError::Unknown("Failed to get arguments as array".to_string())
    );
    assert_eq!(
        region_from_sessions(&sessions("v", vec!["0"])).unwrap_err(),
        RequestError::Unknown("Region argument not found".to_string())
    );
    assert_eq!(
        region_from_sessions(&sessions("v", vec!["0", "1", "2", "3", "noequals"])).unwrap_err(),
        RequestError::Unknown("Failed to get region".to_string())
    );
}

fn presence(puuid: &str, product: &str, private: Option<&str>) -> PresenceData {
    PresenceData {
        basic: String::new(),
        game_name: String::new(),
        game_tag: String::new(),
        name: String::new(),
        pid: String::new(),
        private: private.map(String::from),
        product: product.to_string(),
        puuid: puuid.to_string(),
        region: String::new(),
        resource: String::new(),
        state: String::new(),
        summary: String::new(),
        time: 0,
    }
}

#[test]
fn valorant_presence_and_private_text() {
    let list = vec![presence("me", "league_of_legends", None), presence("me", "valorant", Some("eyJhIjoxfQ=="))];
    let me = find_valorant_presence(list, "me").unwrap();
    assert_eq!(me.product, "valorant");
    assert_eq!(private_presence_text(&me).unwrap(), "{\"a\":1}");
    assert_eq!(
        find_valorant_presence(vec![presence("other", "valorant", None)], "me").unwrap_err(),
        RequestError::Unknown("Cannot find me".to_string())
    );
    assert_eq!(
        private_presence_text(&presence("me", "valorant", None)).unwrap_err(),
        RequestError::Unknown("Cannot get private presence".to_string())
    );
    assert!(matches!(private_presence_text(&presence("me", "valorant", Some("!!"))), Err(RequestError::Unknown(_))));
}

fn private(data: Option<MatchPresenceData>) -> PrivatePresence {
    PrivatePresence {
        is_idle: false,
        is_valid: true,
        match_presence_data: data,
        max_party_size: 5,
        party_id: None,
        party_owner_match_score_ally_team: 0,
        party_owner_match_score_enemy_team: 0,
        party_presence_data: None,
        party_size: 1,
        player_presence_data: None,
        premier_presence_data: None,
        provisioning_flow: String::new(),
        queue_id: String::new(),
    }
}

#[test]
fn gamestate_of_private_presence() {
    let data = MatchPresenceData { match_map: None, provisioning_flow: None, queue_id: None, session_loop_state: Some("MENUS".to_string()) };
    assert_eq!(gamestate_of(&private(Some(data))).unwrap(), "MENUS");
    assert_eq!(
        gamestate_of(&private(None)).unwrap_err(),
        RequestError::Unknown("cannot get match presence".to_string())
    );
    let empty = MatchPresenceData { match_map: None, provisioning_flow: None, queue_id: None, session_loop_state: None };
    assert_eq!(
        gamestate_of(&private(Some(empty))).unwrap_err(),
        RequestError::Unknown("cannot get session loop state".to_string())
    );
}

#[test]
fn shards_and_urls() {
    assert_eq!(shard("latam"), Some("na".to_string()));
    assert_eq!(shard("br"), Some("na".to_string()));
    assert_eq!(shard("kr"), Some("kr".to_string()));
    assert_eq!(shard("xx"), None);
    assert_eq!(request_url("latam", "/p", true), "https://glz-na-1.latam.a.pvp.net/p");
    assert_eq!(request_url("ap", "/p", false), "https://pd.ap.a.pvp.net/p");
}

#[test]
fn attempts_are_limited_to_three() {
    assert_eq!(next_attempt(0), Ok(1));
    assert_eq!(next_attempt(2), Ok(3));
    assert_eq!(next_attempt(3), Err(RequestError::Unknown("Max retries exceeded".to_string())));
}

#[test]
fn pvp_client_headers_from_version() {
    let auth = AuthToken {
        entitlements_token: "jwt".to_string(),
        access_token: "acc".to_string(),
        lockfile_port: String::new(),
        lockfile_password: String::new(),
    };
    let h = pvp_client_headers(&auth, Ok("release-2".to_string())).unwrap();
    assert_eq!(h.len(), 4);
    assert_eq!(h[0].1, "Bearer acc");
    assert_eq!(h[3], ("X-Riot-ClientVersion".to_string(), "release-2".to_string()));
    assert_eq!(pvp_client_headers(&auth, Err(RequestError::FailedWithStatus(503))), Err(RequestError::FailedWithStatus(503)));
}

#[test]
fn asset_status_check() {
    assert!(AssetClient::check_status(200).is_ok());
    assert_eq!(AssetClient::check_status(404), Err(RequestError::FailedWithStatus(404)));
}

#[test]
fn henrik_paths_and_waits() {
    assert_eq!(henrik_url("/v1/x"), "https://api.henrikdev.xyz/valorant/v1/x");
    assert_eq!(account_path("p"), "/v2/by-puuid/account/p");
    assert_eq!(matchlist_path("ap", "p", None), "/v3/by-puuid/matches/ap/p?size=10");
    assert_eq!(matchlist_path("ap", "p", Some("competitive")), "/v3/by-puuid/matches/ap/p?mode=competitive&size=10");
    assert_eq!(retry_wait_secs(429), 60);
    assert_eq!(retry_wait_secs(500), 5);
}

#[test]
fn henrik_key_needs_41_bytes() {
    assert!(matches!(henrik_key_step("short"), HenrikKeyStep::WaitAndRetry { wait_secs: 5 }));
    let key = "HDEV-00000000-0000-0000-0000-000000000000";
    assert_eq!(key.len(), 41);
    assert!(matches!(henrik_key_step(key), HenrikKeyStep::Install(k) if k == key));
}

fn entry(available: bool, me_team: &str, red_won: bool, kills: i32, deaths: i32, rounds: i32) -> MatchEntry {
    let metadata = MatchMetadata {
        map: String::new(),
        game_version: String::new(),
        game_length: 0,
        game_start: 0,
        game_start_patched: String::new(),
        rounds_played: rounds,
        mode: String::new(),
        mode_id: String::new(),
        queue: String::new(),
        season_id: String::new(),
        platform: String::new(),
        matchid: String::new(),
        premier_info: MatchPremierInfo { tournament_id: None, matchup_id: None },
        region: String::new(),
        cluster: String::new(),
    };
    let team = |won: bool| MatchTeamData { has_won: won, rounds_won: 0, rounds_lost: 0, roster: None };
    let stats = MatchPlayerStats { score: 100 * kills, kills, deaths, assists: 0, bodyshots: 3, headshots: 2, legshots: 1 };
    MatchEntry {
        is_available: available,
        metadata: Some(metadata),
        teams: Some(MatchTeams { red: team(red_won), blue: team(!red_won) }),
        players: Some(vec![
            EntryPlayer { puuid: "other".to_string(), team: "Red".to_string(), stats: stats.clone(), damage_made: 1 },
            EntryPlayer { puuid: "me".to_string(), team: me_team.to_string(), stats, damage_made: 150 },
        ]),
    }
}

#[test]
fn match_totals_sum_the_available_matches() {
    let entries = vec![
        entry(true, "Red", true, 20, 10, 24),
        entry(false, "Red", true, 99, 99, 99),
        entry(true, "Blue", true, 5, 15, 13),
    ];
    let t = match_totals(&entries, "me");
    assert_eq!(t.matches, 3);
    assert_eq!(t.rounds_played, 37);
    assert_eq!((t.wins, t.loses), (1, 1));
    assert_eq!((t.kills, t.deaths), (25, 25));
    assert_eq!(t.total_damage, 300);
    assert_eq!((t.min_kills, t.max_kills), (0, 20));
    assert_eq!((t.min_deaths, t.max_deaths), (0, 15));
    assert_eq!((t.headshot, t.bodyshot, t.legshot, t.total_shot), (4, 6, 2, 12));
    assert_eq!(t.score_rounds, vec![(2000, 24), (500, 13)]);
}

#[test]
fn lockfile_monitor_decisions() {
    let mut shared = SharedGameData::new();
    let mut last = String::new();
    assert_eq!(check_lockfile(&shared, &mut last, "a:b".to_string()), LockfileCheck { rebuild: true, after_failure: false });
    assert_eq!(last, "a:b");
    assert_eq!(check_lockfile(&shared, &mut last, "a:b".to_string()), LockfileCheck { rebuild: false, after_failure: false });
    shared.order_reset(true);
    assert_eq!(check_lockfile(&shared, &mut last, "a:b".to_string()), LockfileCheck { rebuild: true, after_failure: true });
    assert!(henrik_key_changed("old", "new"));
    assert!(!henrik_key_changed("same", "same"));
}
