use valmonitor::errors::AppError;
use valmonitor::henrik::client::{
    build_url, parse_response, parsed_response, plan_request, query, rate_limit_header_names, rate_limit_map, segment,
    truncate_body,
};
use valmonitor::henrik::endpoints::{
    matchlist_query, vlr_events_request, HenrikAccountByNameRequest, HenrikLeaderboardRequest,
    HenrikMatchesByPuuidRequest, HenrikVlrEntityRequest,
};
use valmonitor::henrik::settings::{
    api_key_file_text, api_key_from_file, default_auth_mode, default_base_url, load_settings,
    runtime_settings, HenrikAuthMode, HenrikSettings,
};
use valmonitor::json::JsonValue;
use valmonitor::string_map::StringMap;

fn settings(mode: HenrikAuthMode, key: Option<&str>) -> HenrikSettings {
    HenrikSettings {
        base_url: "https://api.henrikdev.xyz/".to_string(),
        auth_mode: mode,
        api_key: key.map(|k| k.to_string()),
    }
}

#[test]
fn segment_percent_encodes() {
    assert_eq!(segment("a b/c"), "a%20b%2Fc");
    assert_eq!(segment("Name#Tag"), "Name%23Tag");
    assert_eq!(segment("ÄB-._~"), "%C3%84B-._~");
}

#[test]
fn query_drops_missing_and_empty_values_and_sorts() {
    let q = query(vec![
        ("size", Some("10".to_string())),
        ("mode", None),
        ("map", Some(String::new())),
        ("force", Some("true".to_string())),
    ]);
    assert_eq!(
        q.into_entries(),
        vec![("force".to_string(), "true".to_string()), ("size".to_string(), "10".to_string())]
    );
}

#[test]
fn query_last_value_wins() {
    let q = query(vec![("k", Some("a".to_string())), ("k", Some("b".to_string()))]);
    assert_eq!(q.into_entries(), vec![("k".to_string(), "b".to_string())]);
}

#[test]
fn build_url_without_and_with_query() {
    assert_eq!(build_url("https://h", "v1/x", &vec![]), "https://h/v1/x");
    let params = vec![("a b".to_string(), "c/d".to_string()), ("e".to_string(), "f".to_string())];
    assert_eq!(build_url("https://h", "p", &params), "https://h/p?a%20b=c%2Fd&e=f");
}

#[test]
fn truncate_body_trims_and_cuts() {
    assert_eq!(truncate_body("  hello  ", 10), "hello");
    assert_eq!(truncate_body("abcdef", 3), "abc...");
    assert_eq!(truncate_body("abc", 3), "abc");
}

#[test]
fn plan_request_header_mode() {
    let plan = plan_request(&settings(HenrikAuthMode::Header, Some("KEY")), "//valorant/v1/x", vec![]).unwrap();
    assert_eq!(plan.url, "https://api.henrikdev.xyz/valorant/v1/x");
    assert_eq!(plan.authorization, Some("KEY".to_string()));
    assert_eq!(plan.path, "valorant/v1/x");
}

#[test]
fn plan_request_query_mode_appends_key() {
    let plan = plan_request(
        &settings(HenrikAuthMode::Query, Some("K Y")),
        "/valorant/v1/x",
        vec![("a".to_string(), "1".to_string())],
    )
    .unwrap();
    assert_eq!(plan.url, "https://api.henrikdev.xyz/valorant/v1/x?a=1&api_key=K%20Y");
    assert_eq!(plan.authorization, None);
}

#[test]
fn plan_request_without_key() {
    let err = plan_request(&settings(HenrikAuthMode::Header, Some("   ")), "/x", vec![]).unwrap_err();
    assert_eq!(err, AppError::HenrikApiKeyMissing);
    let err = plan_request(&settings(HenrikAuthMode::Header, None), "/x", vec![]).unwrap_err();
    assert_eq!(err, AppError::HenrikApiKeyMissing);
}

#[test]
fn plan_request_bad_header_key() {
    let err = plan_request(&settings(HenrikAuthMode::Header, Some("a\nb")), "/x", vec![]).unwrap_err();
    assert_eq!(err, AppError::Header("failed to parse header value".to_string()));
}

#[test]
fn parse_response_error_status() {
    let err = parse_response(429, &StringMap::new(), "  slow down  ").unwrap_err();
    assert_eq!(err, AppError::HenrikRequestFailed { status: 429, body: "slow down".to_string() });
}

#[test]
fn parse_response_invalid_json() {
    let err = parse_response(200, &StringMap::new(), "not json").unwrap_err();
    match err {
        AppError::InvalidResponse(m) => {
            assert!(m.starts_with("Henrik JSON parse failed: "));
            assert!(m.ends_with("; body starts with: not json"));
        }
        other => panic!("unexpected {:?}", other),
    }
}

#[test]
fn parse_response_adds_rate_limits() {
    let limits = rate_limit_map(vec![
        Some("30".to_string()),
        None,
        None,
        Some("29".to_string()),
        None,
        None,
        None,
    ]);
    let v = parse_response(200, &limits, "{\"status\":200}").unwrap();
    assert_eq!(
        v.index("_rate_limits").index("ratelimit").as_str(),
        Some("30")
    );
    assert_eq!(
        v.index("_rate_limits").index("x-ratelimit-remaining").as_str(),
        Some("29")
    );
    assert_eq!(v.index("status"), &JsonValue::Number("200".to_string()));
}

#[test]
fn parse_response_keeps_arrays_as_they_are() {
    let v = parse_response(200, &StringMap::new(), "[1,2]").unwrap();
    assert_eq!(
        v,
        JsonValue::Array(vec![JsonValue::Number("1".to_string()), JsonValue::Number("2".to_string())])
    );
}

#[test]
fn rate_limit_names_in_lookup_order() {
    assert_eq!(
        rate_limit_header_names(),
        vec![
            "ratelimit",
            "ratelimit-policy",
            "x-ratelimit-limit",
            "x-ratelimit-remaining",
            "x-ratelimit-reset",
            "x-cache-status",
            "x-cache-ttl"
        ]
    );
}

#[test]
fn account_by_name_request() {
    let r = HenrikAccountByNameRequest { name: "Some One".to_string(), tag: "JP1".to_string(), force: Some(true) }
        .request();
    assert_eq!(r.path, "/valorant/v2/account/Some%20One/JP1");
    assert_eq!(r.query.into_entries(), vec![("force".to_string(), "true".to_string())]);
}

#[test]
fn leaderboard_request() {
    let r = HenrikLeaderboardRequest {
        region: "ap".to_string(),
        platform: "pc".to_string(),
        season: None,
        size: Some(25),
        page: None,
        start_index: Some(0),
        name: None,
        tag: None,
        puuid: None,
    }
    .request();
    assert_eq!(r.path, "/valorant/v3/leaderboard/ap/pc");
    assert_eq!(
        r.query.into_entries(),
        vec![("size".to_string(), "25".to_string()), ("start_index".to_string(), "0".to_string())]
    );
}

#[test]
fn matches_by_puuid_request() {
    let r = HenrikMatchesByPuuidRequest {
        region: "ap".to_string(),
        platform: "pc".to_string(),
        puuid: "abc".to_string(),
        mode: Some("competitive".to_string()),
        map: None,
        size: Some(5),
        start: None,
    }
    .request();
    assert_eq!(r.path, "/valorant/v4/by-puuid/matches/ap/pc/abc");
    assert_eq!(
        r.query.into_entries(),
        vec![("mode".to_string(), "competitive".to_string()), ("size".to_string(), "5".to_string())]
    );
}

#[test]
fn matchlist_query_values() {
    let q = matchlist_query(Some(String::new()), Some("Ascent".to_string()), None, Some(3));
    assert_eq!(
        q.into_entries(),
        vec![("map".to_string(), "Ascent".to_string()), ("start".to_string(), "3".to_string())]
    );
}

#[test]
fn vlr_requests() {
    assert_eq!(vlr_events_request().path, "/valorant/v2/esports/vlr/events");
    let id = HenrikVlrEntityRequest { id: "12 3".to_string() };
    assert_eq!(id.team_matches_request().path, "/valorant/v2/esports/vlr/teams/12%203/matches");
}

#[test]
fn settings_defaults() {
    assert_eq!(default_base_url(), "https://api.henrikdev.xyz");
    assert_eq!(default_auth_mode(), HenrikAuthMode::Header);
    let d = HenrikSettings::default();
    assert_eq!(d.api_key, None);
}

#[test]
fn api_key_file_skips_comments_and_placeholder() {
    let text = "# paste your key\n\n  api  \r\n  HDEV-123 \r\nother\n";
    assert_eq!(api_key_from_file(text), Some("HDEV-123".to_string()));
    assert_eq!(api_key_from_file("# only a comment\n"), None);
}

#[test]
fn saved_key_is_read_back() {
    let text = api_key_file_text("  HDEV-abc  ");
    assert_eq!(text, "HDEV-abc");
    assert_eq!(api_key_from_file(&text), Some("HDEV-abc".to_string()));
}

#[test]
fn load_settings_prefers_key_file() {
    let parsed = HenrikSettings {
        base_url: "https://x".to_string(),
        auth_mode: HenrikAuthMode::Query,
        api_key: Some("old".to_string()),
    };
    let s = load_settings(Some(parsed), "new-key\n");
    assert_eq!(s.base_url, "https://x");
    assert_eq!(s.auth_mode, HenrikAuthMode::Query);
    assert_eq!(s.api_key, Some("new-key".to_string()));
    let s = load_settings(None, "# none\n");
    assert_eq!(s.base_url, "https://api.henrikdev.xyz");
    assert_eq!(s.api_key, None);
}

#[test]
fn runtime_settings_report() {
    let r = runtime_settings(
        settings(HenrikAuthMode::Header, Some("k")),
        "s.json".to_string(),
        "api.txt".to_string(),
        "debug.log".to_string(),
    );
    assert!(r.has_api_key);
    assert_eq!(r.api_key_path, "api.txt");
}

#[test]
fn query_of_its_own_entries_gives_it_back() {
    let q = query(vec![
        ("size", Some("10".to_string())),
        ("mode", None),
        ("map", Some(String::new())),
        ("force", Some("true".to_string())),
        ("size", Some("20".to_string())),
    ]);
    let entries = q.into_entries();
    let again = query(entries.iter().map(|(k, v)| (k.as_str(), Some(v.clone()))).collect());
    assert_eq!(again.into_entries(), entries);
}

#[test]
fn parsed_response_reports_parse_error() {
    let err = parsed_response(Err("expected value".to_string()), &StringMap::new(), "oops").unwrap_err();
    match err {
        AppError::InvalidResponse(m) => {
            assert_eq!(m, "Henrik JSON parse failed: expected value; body starts with: oops")
        }
        other => panic!("unexpected error {:?}", other),
    }
}

#[test]
fn parsed_response_adds_rate_limits_to_objects_only() {
    let limits = rate_limit_map(vec![Some("30".to_string()), None, None, None, None, None, None]);
    let object = JsonValue::Object(vec![("status".to_string(), JsonValue::Number("200".to_string()))]);
    let v = parsed_response(Ok(object), &limits, "{\"status\":200}").unwrap();
    assert_eq!(v.index("_rate_limits").index("ratelimit").as_str(), Some("30"));
    assert_eq!(v.index("status"), &JsonValue::Number("200".to_string()));
    let list = JsonValue::Array(vec![JsonValue::Bool(true)]);
    assert_eq!(
        parsed_response(Ok(list), &limits, "[true]").unwrap(),
        JsonValue::Array(vec![JsonValue::Bool(true)])
    );
}
