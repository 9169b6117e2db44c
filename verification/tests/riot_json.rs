use valmonitor::json::JsonValue;
use valmonitor::riot_json::{
    gamestate, monitor_step, my_presence, private_presence, start_round, ValorantAPI, MonitorAction,
    MonitorEvent, MonitorStage,
};

fn s(v: &str) -> JsonValue {
    JsonValue::Str(v.to_string())
}

fn obj(entries: Vec<(&str, JsonValue)>) -> JsonValue {
    JsonValue::Object(entries.into_iter().map(|(k, v)| (k.to_string(), v)).collect())
}

#[test]
fn my_presence_from_document() {
    let doc = obj(vec![(
        "presences",
        JsonValue::Array(vec![obj(vec![("puuid", s("a"))]), obj(vec![("puuid", s("me")), ("x", s("1"))])]),
    )]);
    let mine = my_presence(Ok(doc), "me").unwrap();
    assert_eq!(mine.index("x").as_str(), Some("1"));
    assert_eq!(my_presence(Ok(obj(vec![])), "me").unwrap_err(), "Invalid Json");
    assert_eq!(my_presence(Err("down".to_string()), "me").unwrap_err(), "Invalid Json");
    let doc = obj(vec![("presences", JsonValue::Array(vec![obj(vec![("puuid", s("a"))])]))]);
    assert_eq!(my_presence(Ok(doc), "me").unwrap_err(), "Invalid Json");
}

#[test]
fn private_presence_and_gamestate() {
    // {"matchPresenceData":{"sessionLoopState":"PREGAME"}}
    let p = obj(vec![("private", s("eyJtYXRjaFByZXNlbmNlRGF0YSI6eyJzZXNzaW9uTG9vcFN0YXRlIjoiUFJFR0FNRSJ9fQ=="))]);
    let decoded = private_presence(Ok(p)).unwrap();
    assert_eq!(gamestate(Ok(decoded)).unwrap(), "PREGAME");
    assert_eq!(private_presence(Ok(obj(vec![]))).unwrap_err(), "Invalid Json");
    assert_eq!(gamestate(Err("x".to_string())).unwrap_err(), "Invalid Json");
}

#[test]
fn monitor_round_sets_up_the_session() {
    let mut session = ValorantAPI::new();
    let (stage, action) = start_round();
    assert!(matches!(action, MonitorAction::ReadLockfile));
    let (stage, action) =
        monitor_step(&mut session, stage, MonitorEvent::Lockfile(Ok("Riot Client:1:5000:pw:https".to_string())));
    assert!(matches!(&action, MonitorAction::InstallLocalClient(h) if h == "Basic cmlvdDpwdw=="));
    assert_eq!(session.server_port, "5000");
    assert_eq!(session.server_protocol, "https");
    let (stage, action) = monitor_step(&mut session, stage, MonitorEvent::ClientInstalled);
    assert!(matches!(action, MonitorAction::FetchEntitlements));
    assert!(session.local_initialized);
    let ent = obj(vec![("accessToken", s("acc")), ("subject", s("me")), ("token", s("jwt"))]);
    let (stage, action) = monitor_step(&mut session, stage, MonitorEvent::Entitlements(Ok(ent)));
    assert!(matches!(&action, MonitorAction::InstallAuthClient(h) if h == "Bearer acc"));
    let (stage, action) = monitor_step(&mut session, stage, MonitorEvent::ClientInstalled);
    assert!(matches!(action, MonitorAction::FetchUserinfo));
    let info = obj(vec![("acct", obj(vec![("game_name", s("Name")), ("tag_line", s("JP1"))]))]);
    let (_, action) = monitor_step(&mut session, stage, MonitorEvent::Userinfo(Ok(info)));
    assert!(matches!(action, MonitorAction::EndRound(1)));
    assert!(session.is_initialized());
    assert_eq!((session.name.as_str(), session.tag_line.as_str(), session.puuid.as_str()), ("Name", "JP1", "me"));

    // next round: same lockfile and player, nothing changes
    let (stage, _) = start_round();
    let (stage, action) =
        monitor_step(&mut session, stage, MonitorEvent::Lockfile(Ok("Riot Client:1:5000:pw:https".to_string())));
    assert!(matches!(action, MonitorAction::FetchEntitlements));
    let ent = obj(vec![("subject", s("me"))]);
    let (stage, action) = monitor_step(&mut session, stage, MonitorEvent::Entitlements(Ok(ent)));
    assert!(matches!(action, MonitorAction::Pause(1)));
    let (stage, action) = monitor_step(&mut session, stage, MonitorEvent::Resumed);
    assert!(matches!(stage, MonitorStage::Done));
    assert!(matches!(action, MonitorAction::EndRound(1)));
}

#[test]
fn monitor_round_ends_early() {
    let mut session = ValorantAPI::new();
    let (_, action) = monitor_step(&mut session, MonitorStage::ReadLockfile, MonitorEvent::Lockfile(Ok("a:b".to_string())));
    assert!(matches!(action, MonitorAction::EndRound(1)));
    let (_, action) = monitor_step(&mut session, MonitorStage::ReadLockfile, MonitorEvent::Lockfile(Err("no".to_string())));
    assert!(matches!(action, MonitorAction::EndRound(1)));
    let (_, action) = monitor_step(&mut session, MonitorStage::Entitlements, MonitorEvent::Entitlements(Ok(obj(vec![]))));
    assert!(matches!(action, MonitorAction::EndRound(0)));
    let (_, action) = monitor_step(&mut session, MonitorStage::Entitlements, MonitorEvent::Entitlements(Err("x".to_string())));
    assert!(matches!(action, MonitorAction::EndRound(0)));
    let (_, action) = monitor_step(&mut session, MonitorStage::Userinfo, MonitorEvent::Userinfo(Err("x".to_string())));
    assert!(matches!(action, MonitorAction::EndRound(1)));
    assert!(!session.is_initialized());
}
