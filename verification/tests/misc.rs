use valmonitor::app_config::{app_paths, join_path};
use valmonitor::commands::greet;
use valmonitor::discord_rpc::{discord_error, plan_activity, DiscordRpcActivityInput};
use valmonitor::errors::AppError;
use valmonitor::http_log::{parse_error, preview, response, response_error, transport_error};
use valmonitor::json::JsonValue;
use valmonitor::models::auth::{riot_id_of, AuthSnapshot};

#[test]
fn error_kinds_and_messages() {
    let all = vec![
        (AppError::LockfileNotFound, "lockfileNotFound", "Riot Client の lockfile が見つかりません".to_string()),
        (AppError::RiotSessionNotReady("x".into()), "riotSessionNotReady", "Riot session is not ready yet: x".into()),
        (AppError::StorefrontUnavailable("x".into()), "storefrontUnavailable", "Riot Storefront is not available right now: x".into()),
        (AppError::InvalidResponse("x".into()), "invalidResponse", "Riot API のレスポンス形式が想定外です: x".into()),
        (AppError::RequestFailed("x".into()), "requestFailed", "HTTP request failed: x".into()),
        (AppError::Io("x".into()), "io", "IO failed: x".into()),
        (AppError::Env("x".into()), "environment", "environment variable failed: x".into()),
        (AppError::Base64("x".into()), "base64", "base64 decode failed: x".into()),
        (AppError::Utf8("x".into()), "utf8", "utf8 decode failed: x".into()),
        (AppError::Header("x".into()), "header", "header value is invalid: x".into()),
        (AppError::StatePoisoned("auth".into()), "statePoisoned", "shared state lock was poisoned: auth".into()),
        (
            AppError::HenrikApiKeyMissing,
            "henrikApiKeyMissing",
            "Henrik API key が設定されていません。%APPDATA%\\ValMonitor\\api.txt に API key を保存してください".into(),
        ),
        (
            AppError::HenrikRequestFailed { status: 403, body: "no".into() },
            "henrikRequestFailed",
            "Henrik API request failed with status 403: no".into(),
        ),
    ];
    let mut kinds: Vec<&str> = Vec::new();
    for (e, kind, message) in &all {
        assert_eq!(e.kind(), *kind);
        assert_eq!(&e.message(), message);
        assert!(!kinds.contains(kind));
        kinds.push(kind);
    }
    assert!(AppError::RiotSessionNotReady("x".into()).is_session_not_ready());
    assert!(!AppError::LockfileNotFound.is_session_not_ready());
}

#[test]
fn discord_activity_plan() {
    let plan = plan_activity(DiscordRpcActivityInput { client_id: "  123  ".into(), details: None, state: None }).unwrap();
    assert_eq!(plan.client_id, "123");
    assert_eq!(plan.details, "Tracking VALORANT");
    assert_eq!(plan.state, "ValMonitor");
    let plan = plan_activity(DiscordRpcActivityInput {
        client_id: "9".into(),
        details: Some("In match".into()),
        state: Some("Ascent".into()),
    })
    .unwrap();
    assert_eq!((plan.details.as_str(), plan.state.as_str()), ("In match", "Ascent"));
    assert_eq!(
        plan_activity(DiscordRpcActivityInput { client_id: " \t ".into(), details: None, state: None }).unwrap_err(),
        AppError::InvalidResponse("Discord RPC client id is missing".into())
    );
    assert_eq!(discord_error("pipe closed"), AppError::InvalidResponse("Discord RPC failed: pipe closed".into()));
}

#[test]
fn application_paths() {
    let p = app_paths("C:\\Users\\me\\AppData\\Roaming");
    assert_eq!(p.config_dir, "C:\\Users\\me\\AppData\\Roaming\\ValMonitor");
    assert_eq!(p.settings_path, "C:\\Users\\me\\AppData\\Roaming\\ValMonitor\\settings.json");
    assert_eq!(p.api_key_path, "C:\\Users\\me\\AppData\\Roaming\\ValMonitor\\api.txt");
    assert_eq!(p.debug_log_path, "C:\\Users\\me\\AppData\\Roaming\\ValMonitor\\debug.log");
    assert_eq!(join_path("C:\\data\\", "x"), "C:\\data\\x");
}

#[test]
fn greeting() {
    assert_eq!(greet("Sova"), "Hello, Sova! You've been greeted from Rust!");
}

#[test]
fn riot_id() {
    assert_eq!(riot_id_of("Name", "JP1"), "Name#JP1");
    let snap = AuthSnapshot {
        access_token: String::new(),
        entitlements_token: String::new(),
        puuid: String::new(),
        game_name: "A".into(),
        tag_line: "B".into(),
    };
    assert_eq!(snap.full_username(), "A#B");
    let empty = AuthSnapshot::default();
    assert_eq!(empty.puuid, "");
}

#[test]
fn log_lines() {
    assert_eq!(preview("  a \n\t b  ", 10), "a b");
    assert_eq!(preview("say \"hi\" there", 8), "say 'hi'...");
    assert_eq!(response("riot-local", "GET", "/x", 200, 12, 34), "HTTP riot-local GET /x -> 200 in 12ms body=34B");
    assert_eq!(
        response_error("henrik", "GET", "/y", 404, 5, " not  found "),
        "HTTP henrik GET /y -> 404 in 5ms body=12B preview=\"not found\""
    );
    assert_eq!(
        transport_error("riot-pvp", "GET", "/z", 7, "timed out"),
        "HTTP riot-pvp GET /z -> transport_error in 7ms error=\"timed out\""
    );
    assert_eq!(
        parse_error("valorant-assets", "GET", "/v", 3, "eof", "{é"),
        "HTTP valorant-assets GET /v -> parse_error in 3ms error=\"eof\" body=3B preview=\"{é\""
    );
}

#[test]
fn json_members() {
    let mut v = JsonValue::Object(vec![("a".into(), JsonValue::Null), ("b".into(), JsonValue::Bool(true))]);
    assert_eq!(v.index("b"), &JsonValue::Bool(true));
    assert_eq!(v.index("zz"), &JsonValue::Null);
    v.insert_field("a".into(), JsonValue::Str("x".into()));
    v.insert_field("c".into(), JsonValue::Null);
    assert_eq!(v.get("a"), Some(&JsonValue::Str("x".into())));
    assert_eq!(v.into_member("c"), JsonValue::Null);
    assert_eq!(JsonValue::Null.as_array(), None);
}
