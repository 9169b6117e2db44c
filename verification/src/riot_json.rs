//! The Riot Client session read through untyped JSON documents: the
//! player's presence and game state, and the lockfile monitor that keeps
//! the session, written as a machine that the caller drives.
use vstd::prelude::*;
use vstd::utf8::{decode_utf8, valid_utf8};

use crate::codec::{base64_decode, base64_decode_str, base64_encode, lemma_base64_injective, utf8_string};
use crate::json::{json_text_parse, parse_json, JsonValue};
use crate::models::lockfile::basic_authorization;
use crate::riot::auth::bearer_value;
use crate::riot::response::header_value_ok;
use crate::riot_api::local_client::basic_header_value;
use crate::text::{chars_of, concat2, split_char, split_chars, str_eq, string_of};

verus! {

/// The error text of every failed read of a presence.
pub open spec fn invalid_json() -> Seq<char> {
    "Invalid Json"@
}

fn invalid_json_text() -> (r: String)
    ensures
        r@ == invalid_json(),
{
    "Invalid Json".to_owned()
}

/// Whether a presence belongs to `puuid`: its `puuid` is that string.
pub open spec fn presence_of(value: JsonValue, puuid: Seq<char>) -> bool {
    value.at("puuid"@).str_value() == Some(puuid)
}

/// Index of the first presence of `puuid`.
pub open spec fn first_presence_of(values: Seq<JsonValue>, puuid: Seq<char>) -> Option<int>
    decreases values.len(),
{
    if values.len() == 0 {
        None
    } else if presence_of(values[0], puuid) {
        Some(0)
    } else {
        match first_presence_of(values.drop_first(), puuid) {
            Some(i) => Some(i + 1),
            None => None,
        }
    }
}

fn first_presence_index(values: &Vec<JsonValue>, puuid: &str) -> (r: Option<usize>)
    ensures
        r matches Some(i) ==> first_presence_of(values@, puuid@) == Some(i as int) && i < values@.len(),
        r is None ==> first_presence_of(values@, puuid@) is None,
{
    let ghost all = values@;
    let mut i: usize = 0;
    assert(all.skip(0) =~= all);
    while i < values.len()
        invariant
            i <= values.len(),
            values@ == all,
            first_presence_of(all, puuid@) == match first_presence_of(all.skip(i as int), puuid@) {
                Some(j) => Some(j + i),
                None => None,
            },
        decreases values.len() - i,
    {
        assert(all.skip(i as int)[0] == all[i as int]);
        let owned = match values[i].index("puuid").as_str() {
            Some(p) => str_eq(p, puuid),
            None => false,
        };
        if owned {
            return Some(i);
        }
        assert(all.skip(i as int).drop_first() =~= all.skip(i + 1));
        i += 1;
    }
    assert(all.skip(i as int).len() == 0);
    None
}

/// The player's presence in the answer of `/chat/v4/presences`: the first
/// element of `presences` whose `puuid` is the player's. A failed request,
/// a document without that array, or no such element is `Invalid Json`.
pub fn my_presence(document: Result<JsonValue, String>, puuid: &str) -> (r: Result<JsonValue, String>)
    ensures
        match document {
            Ok(doc) => match doc.at("presences"@) {
                JsonValue::Array(values) => match first_presence_of(values@, puuid@) {
                    Some(i) => r == Ok::<JsonValue, String>(values@[i]),
                    None => r matches Err(m) && m@ == invalid_json(),
                },
                _ => r matches Err(m) && m@ == invalid_json(),
            },
            Err(_) => r matches Err(m) && m@ == invalid_json(),
        },
{
    let doc = match document {
        Ok(doc) => doc,
        Err(_) => {
            return Err(invalid_json_text());
        },
    };
    match doc.into_member("presences") {
        JsonValue::Array(values) => match first_presence_index(&values, puuid) {
            Some(i) => {
                let mut values = values;
                Ok(values.remove(i))
            },
            None => Err(invalid_json_text()),
        },
        _ => Err(invalid_json_text()),
    }
}

/// Whether the private part of a presence can be decoded: base64 of UTF-8
/// (the decoding does not expect to fail).
pub open spec fn private_decodable(presence: JsonValue) -> bool {
    presence.at("private"@).str_value() matches Some(p) ==> (base64_decode(p) matches Some(b)
        && valid_utf8(b))
}

/// The decoded private part of a presence: the `private` string, decoded
/// from base64 and UTF-8, read as JSON. A failed presence or a missing
/// `private` string is `Invalid Json`; a parse error gives the parser's
/// message.
pub fn private_presence(presence: Result<JsonValue, String>) -> (r: Result<JsonValue, String>)
    requires
        presence matches Ok(v) ==> private_decodable(v),
    ensures
        match presence {
            Err(_) => r matches Err(m) && m@ == invalid_json(),
            Ok(v) => match v.at("private"@).str_value() {
                None => r matches Err(m) && m@ == invalid_json(),
                Some(p) => match json_text_parse(decode_utf8(base64_decode(p)->Some_0)) {
                    Ok(x) => r == Ok::<JsonValue, String>(x),
                    Err(e) => r matches Err(m) && m@ == e,
                },
            },
        },
{
    let v = match presence {
        Ok(v) => v,
        Err(_) => {
            return Err(invalid_json_text());
        },
    };
    let text = match v.index("private").as_str() {
        Some(p) => p,
        None => {
            return Err(invalid_json_text());
        },
    };
    let bytes = match base64_decode_str(text) {
        Ok(b) => b,
        Err(_) => {
            return Err(invalid_json_text());
        },
    };
    proof {
        assert(base64_encode(bytes@) == text@);
        assert(exists|c: Seq<u8>| base64_encode(c) == text@);
        let c = choose|c: Seq<u8>| base64_encode(c) == text@;
        lemma_base64_injective(c, bytes@);
    }
    let decoded = match utf8_string(bytes) {
        Ok(s) => s,
        Err(_) => {
            return Err(invalid_json_text());
        },
    };
    parse_json(decoded.as_str())
}

/// The game state of a decoded private presence; the presence is
/// expected to carry `matchPresenceData.sessionLoopState` as a string.
pub fn gamestate(private: Result<JsonValue, String>) -> (r: Result<String, String>)
    requires
        private matches Ok(v) ==> crate::riot::presence::session_loop_state(v) is Some,
    ensures
        private matches Ok(v) ==> (r matches Ok(s) && Some(s@) == crate::riot::presence::session_loop_state(v)),
        private is Err ==> (r matches Err(m) && m@ == invalid_json()),
{
    match private {
        Ok(json) => match json.index("matchPresenceData").index("sessionLoopState").as_str() {
            Some(s) => Ok(s.to_owned()),
            None => Err(invalid_json_text()),
        },
        Err(_) => Err(invalid_json_text()),
    }
}

/// The session as the monitor keeps it: the lockfile and its fields, the
/// header of the local client, the tokens and identity, and which APIs are
/// ready.
pub struct ValorantAPI {
    pub raw_lockfile: String,
    pub server_name: String,
    pub server_pid: String,
    pub server_port: String,
    pub server_password: String,
    pub server_protocol: String,
    pub server_header_auth: String,
    pub access_token: String,
    pub puuid: String,
    pub entitlements_token: String,
    pub name: String,
    pub tag_line: String,
    pub local_initialized: bool,
    pub auth_initialized: bool,
    pub pvp_initialized: bool,
}

impl ValorantAPI {
    /// Nothing read yet.
    pub open spec fn is_blank(self) -> bool {
        &&& self.raw_lockfile@.len() == 0
        &&& self.server_name@.len() == 0
        &&& self.server_pid@.len() == 0
        &&& self.server_port@.len() == 0
        &&& self.server_password@.len() == 0
        &&& self.server_protocol@.len() == 0
        &&& self.server_header_auth@.len() == 0
        &&& self.access_token@.len() == 0
        &&& self.puuid@.len() == 0
        &&& self.entitlements_token@.len() == 0
        &&& self.name@.len() == 0
        &&& self.tag_line@.len() == 0
        &&& !self.local_initialized
        &&& !self.auth_initialized
        &&& !self.pvp_initialized
    }

    /// A session before the first lockfile.
    pub fn new() -> (r: ValorantAPI)
        ensures
            r.is_blank(),
    {
        ValorantAPI {
            raw_lockfile: String::new(),
            server_name: String::new(),
            server_pid: String::new(),
            server_port: String::new(),
            server_password: String::new(),
            server_protocol: String::new(),
            server_header_auth: String::new(),
            access_token: String::new(),
            puuid: String::new(),
            entitlements_token: String::new(),
            name: String::new(),
            tag_line: String::new(),
            local_initialized: false,
            auth_initialized: false,
            pvp_initialized: false,
        }
    }

    /// Whether the whole session is set up.
    pub fn is_initialized(&self) -> (r: bool)
        ensures
            r == self.pvp_initialized,
    {
        self.pvp_initialized
    }
}

/// Where a round of the monitor stands.
pub enum MonitorStage {
    ReadLockfile,
    /// Waiting for the entitlements that tell who is signed in; holds the
    /// lockfile text.
    CheckIdentity(String),
    /// Pausing before the lockfile is compared; holds the lockfile text and
    /// the PUUID now signed in.
    Compare(String, String),
    InstallLocal,
    Entitlements,
    InstallAuth,
    Userinfo,
    Done,
}

/// The outcome of the last action of a round.
pub enum MonitorEvent {
    /// The lockfile text, or the message of the read error.
    Lockfile(Result<String, String>),
    Entitlements(Result<JsonValue, String>),
    /// The pause is over.
    Resumed,
    /// The HTTP client of the last install action is in place.
    ClientInstalled,
    Userinfo(Result<JsonValue, String>),
}

/// What the caller does next in a round.
pub enum MonitorAction {
    ReadLockfile,
    FetchEntitlements,
    /// Sleep this many seconds, then report `Resumed`.
    Pause(u64),
    /// Install the local client with this `Authorization` value.
    InstallLocalClient(String),
    /// Install the auth client with this `Authorization` value.
    InstallAuthClient(String),
    FetchUserinfo,
    /// The round is over; sleep this many seconds before the next one.
    EndRound(u64),
}

/// Whether the entitlements document can be read as the monitor reads it:
/// with an `accessToken` string come a `token` and a `subject` string, and
/// the bearer value is a valid header value.
pub open spec fn entitlements_readable(doc: JsonValue) -> bool {
    doc.at("accessToken"@).str_value() matches Some(access) ==> {
        &&& doc.at("token"@).str_value() is Some
        &&& doc.at("subject"@).str_value() is Some
        &&& header_value_ok(bearer_value(access))
    }
}

/// Whether the user info document holds the Riot ID the monitor reads.
pub open spec fn userinfo_readable(doc: JsonValue) -> bool {
    &&& doc.at("acct"@).at("game_name"@).str_value() is Some
    &&& doc.at("acct"@).at("tag_line"@).str_value() is Some
}

/// Whether an event answers what a stage waits on, and holds what the
/// monitor expects to read from it.
pub open spec fn monitor_event_fits(stage: MonitorStage, event: MonitorEvent) -> bool {
    match stage {
        MonitorStage::ReadLockfile => event is Lockfile,
        MonitorStage::CheckIdentity(_) => event is Entitlements,
        MonitorStage::Compare(_, _) => event is Resumed,
        MonitorStage::InstallLocal => event is ClientInstalled,
        MonitorStage::Entitlements => event matches MonitorEvent::Entitlements(result) && (result matches Ok(
            doc,
        ) ==> entitlements_readable(doc)),
        MonitorStage::InstallAuth => event is ClientInstalled,
        MonitorStage::Userinfo => event matches MonitorEvent::Userinfo(result) && (result matches Ok(doc)
            ==> userinfo_readable(doc)),
        MonitorStage::Done => false,
    }
}

/// The decision on a lockfile text once the signed-in PUUID is known.
pub open spec fn compare_step(old_s: ValorantAPI, new_s: ValorantAPI, content: Seq<char>, check: Seq<char>, r: (
    MonitorStage,
    MonitorAction,
)) -> bool {
    let fields = split_char(content, ':');
    if fields.len() < 5 || (old_s.raw_lockfile@ == content && old_s.puuid@ == check) {
        new_s == old_s && r.0 == MonitorStage::Done && r.1 == MonitorAction::EndRound(1)
    } else {
        &&& new_s.raw_lockfile@ == content
        &&& new_s.server_name@ == fields[0]
        &&& new_s.server_pid@ == fields[1]
        &&& new_s.server_port@ == fields[2]
        &&& new_s.server_password@ == fields[3]
        &&& new_s.server_protocol@ == fields[4]
        &&& new_s.server_header_auth@ == basic_authorization(fields[3])
        &&& header_value_ok(new_s.server_header_auth@)
        &&& new_s.access_token == old_s.access_token
        &&& new_s.puuid == old_s.puuid
        &&& new_s.entitlements_token == old_s.entitlements_token
        &&& new_s.name == old_s.name
        &&& new_s.tag_line == old_s.tag_line
        &&& new_s.local_initialized == old_s.local_initialized
        &&& new_s.auth_initialized == old_s.auth_initialized
        &&& new_s.pvp_initialized == old_s.pvp_initialized
        &&& r.0 == MonitorStage::InstallLocal
        &&& r.1 == MonitorAction::InstallLocalClient(new_s.server_header_auth)
    }
}

/// The first action of a round.
pub fn start_round() -> (r: (MonitorStage, MonitorAction))
    ensures
        r.0 == MonitorStage::ReadLockfile,
        r.1 == MonitorAction::ReadLockfile,
{
    (MonitorStage::ReadLockfile, MonitorAction::ReadLockfile)
}

fn compare_lockfile(session: &mut ValorantAPI, content: String, check: &str) -> (r: (MonitorStage, MonitorAction))
    ensures
        compare_step(*old(session), *final(session), content@, check@, r),
{
    let cs = chars_of(content.as_str());
    let fields = split_chars(&cs, ':');
    if fields.len() < 5 {
        return (MonitorStage::Done, MonitorAction::EndRound(1));
    }
    if str_eq(session.raw_lockfile.as_str(), content.as_str()) && str_eq(session.puuid.as_str(), check) {
        return (MonitorStage::Done, MonitorAction::EndRound(1));
    }
    session.raw_lockfile = content;
    session.server_name = string_of(&fields[0]);
    session.server_pid = string_of(&fields[1]);
    session.server_port = string_of(&fields[2]);
    session.server_password = string_of(&fields[3]);
    session.server_protocol = string_of(&fields[4]);
    let header = basic_header_value(session.server_password.as_str());
    session.server_header_auth = header.clone();
    (MonitorStage::InstallLocal, MonitorAction::InstallLocalClient(header))
}

fn step_entitlements(session: &mut ValorantAPI, result: Result<JsonValue, String>) -> (r: (MonitorStage, MonitorAction))
    requires
        result matches Ok(doc) ==> entitlements_readable(doc),
    ensures
        match result {
            Ok(doc) => match doc.at("accessToken"@).str_value() {
                Some(access) => {
                    &&& final(session).access_token@ == access
                    &&& Some(final(session).entitlements_token@) == doc.at("token"@).str_value()
                    &&& Some(final(session).puuid@) == doc.at("subject"@).str_value()
                    &&& *final(session) == (ValorantAPI {
                        access_token: final(session).access_token,
                        entitlements_token: final(session).entitlements_token,
                        puuid: final(session).puuid,
                        ..*old(session)
                    })
                    &&& r.0 == MonitorStage::InstallAuth
                    &&& r.1 matches MonitorAction::InstallAuthClient(h) && h@ == bearer_value(access)
                },
                None => *final(session) == *old(session) && r.0 == MonitorStage::Done && r.1
                    == MonitorAction::EndRound(0),
            },
            Err(_) => *final(session) == *old(session) && r.0 == MonitorStage::Done && r.1
                == MonitorAction::EndRound(0),
        },
{
    match result {
        Ok(doc) => match doc.index("accessToken").as_str() {
            Some(access) => {
                let token = match doc.index("token").as_str() {
                    Some(t) => t.to_owned(),
                    None => String::new(),
                };
                let subject = match doc.index("subject").as_str() {
                    Some(t) => t.to_owned(),
                    None => String::new(),
                };
                session.access_token = access.to_owned();
                session.entitlements_token = token;
                session.puuid = subject;
                (MonitorStage::InstallAuth, MonitorAction::InstallAuthClient(concat2("Bearer ", access)))
            },
            None => (MonitorStage::Done, MonitorAction::EndRound(0)),
        },
        Err(_) => (MonitorStage::Done, MonitorAction::EndRound(0)),
    }
}

fn step_userinfo(session: &mut ValorantAPI, result: Result<JsonValue, String>) -> (r: (MonitorStage, MonitorAction))
    requires
        result matches Ok(doc) ==> userinfo_readable(doc),
    ensures
        r.0 == MonitorStage::Done,
        r.1 == MonitorAction::EndRound(1),
        match result {
            Ok(doc) => {
                &&& Some(final(session).name@) == doc.at("acct"@).at("game_name"@).str_value()
                &&& Some(final(session).tag_line@) == doc.at("acct"@).at("tag_line"@).str_value()
                &&& *final(session) == (ValorantAPI {
                    name: final(session).name,
                    tag_line: final(session).tag_line,
                    pvp_initialized: true,
                    ..*old(session)
                })
            },
            Err(_) => *final(session) == *old(session),
        },
{
    match result {
        Ok(doc) => {
            let acct = doc.index("acct");
            let name = match acct.index("game_name").as_str() {
                Some(t) => t.to_owned(),
                None => String::new(),
            };
            let tag = match acct.index("tag_line").as_str() {
                Some(t) => t.to_owned(),
                None => String::new(),
            };
            session.name = name;
            session.tag_line = tag;
            session.pvp_initialized = true;
            (MonitorStage::Done, MonitorAction::EndRound(1))
        },
        Err(_) => (MonitorStage::Done, MonitorAction::EndRound(1)),
    }
}

fn step_identity(content: String, result: Result<JsonValue, String>) -> (r: (MonitorStage, MonitorAction))
    ensures
        r.1 == MonitorAction::Pause(1),
        r.0 matches MonitorStage::Compare(c, check) && c == content && check@ == match result {
            Ok(doc) => match doc.at("subject"@).str_value() {
                Some(s) => s,
                None => Seq::<char>::empty(),
            },
            Err(_) => Seq::<char>::empty(),
        },
{
    let check = match result {
        Ok(doc) => match doc.index("subject").as_str() {
            Some(s) => s.to_owned(),
            None => String::new(),
        },
        Err(_) => String::new(),
    };
    (MonitorStage::Compare(content, check), MonitorAction::Pause(1))
}

/// One step of a round of the lockfile monitor. Each round reads the
/// lockfile; when the session is set up it first asks who is signed in and
/// pauses a second. A lockfile with fewer than five fields, or the same
/// lockfile and player as before, ends the round. Otherwise the fields are
/// recorded, the local client installed, the entitlements read (a failure
/// or a document without `accessToken` ends the round at once), the auth
/// client installed, and the user info read; with it the session is set up.
pub fn monitor_step(session: &mut ValorantAPI, stage: MonitorStage, event: MonitorEvent) -> (r: (
    MonitorStage,
    MonitorAction,
))
    requires
        monitor_event_fits(stage, event),
    ensures
        match (stage, event) {
            (MonitorStage::ReadLockfile, MonitorEvent::Lockfile(Err(_))) => *final(session) == *old(
                session,
            ) && r.0 == MonitorStage::Done && r.1 == MonitorAction::EndRound(1),
            (MonitorStage::ReadLockfile, MonitorEvent::Lockfile(Ok(content))) => if old(
                session,
            ).pvp_initialized {
                *final(session) == *old(session) && r.0 == MonitorStage::CheckIdentity(content) && r.1
                    == MonitorAction::FetchEntitlements
            } else {
                compare_step(*old(session), *final(session), content@, ""@, r)
            },
            (MonitorStage::CheckIdentity(content), MonitorEvent::Entitlements(result)) => *final(session)
                == *old(session) && r.1 == MonitorAction::Pause(1) && (r.0 matches MonitorStage::Compare(
                c,
                check,
            ) && c == content && check@ == match result {
                Ok(doc) => match doc.at("subject"@).str_value() {
                    Some(s) => s,
                    None => Seq::<char>::empty(),
                },
                Err(_) => Seq::<char>::empty(),
            }),
            (MonitorStage::Compare(content, check), _) => compare_step(
                *old(session),
                *final(session),
                content@,
                check@,
                r,
            ),
            (MonitorStage::InstallLocal, _) => *final(session) == (ValorantAPI {
                local_initialized: true,
                ..*old(session)
            }) && r.0 == MonitorStage::Entitlements && r.1 == MonitorAction::FetchEntitlements,
            (MonitorStage::Entitlements, MonitorEvent::Entitlements(result)) => match result {
                Ok(doc) => match doc.at("accessToken"@).str_value() {
                    Some(access) => {
                        &&& final(session).access_token@ == access
                        &&& Some(final(session).entitlements_token@) == doc.at("token"@).str_value()
                        &&& Some(final(session).puuid@) == doc.at("subject"@).str_value()
                        &&& *final(session) == (ValorantAPI {
                            access_token: final(session).access_token,
                            entitlements_token: final(session).entitlements_token,
                            puuid: final(session).puuid,
                            ..*old(session)
                        })
                        &&& r.0 == MonitorStage::InstallAuth
                        &&& r.1 matches MonitorAction::InstallAuthClient(h) && h@ == bearer_value(access)
                    },
                    None => *final(session) == *old(session) && r.0 == MonitorStage::Done && r.1
                        == MonitorAction::EndRound(0),
                },
                Err(_) => *final(session) == *old(session) && r.0 == MonitorStage::Done && r.1
                    == MonitorAction::EndRound(0),
            },
            (MonitorStage::InstallAuth, _) => *final(session) == (ValorantAPI {
                auth_initialized: true,
                ..*old(session)
            }) && r.0 == MonitorStage::Userinfo && r.1 == MonitorAction::FetchUserinfo,
            (MonitorStage::Userinfo, MonitorEvent::Userinfo(result)) => r.0 == MonitorStage::Done && r.1
                == MonitorAction::EndRound(1) && match result {
                Ok(doc) => {
                    &&& Some(final(session).name@) == doc.at("acct"@).at("game_name"@).str_value()
                    &&& Some(final(session).tag_line@) == doc.at("acct"@).at("tag_line"@).str_value()
                    &&& *final(session) == (ValorantAPI {
                        name: final(session).name,
                        tag_line: final(session).tag_line,
                        pvp_initialized: true,
                        ..*old(session)
                    })
                },
                Err(_) => *final(session) == *old(session),
            },
            _ => false,
        },
{
    match stage {
        MonitorStage::ReadLockfile => match event {
            MonitorEvent::Lockfile(Err(_)) => (MonitorStage::Done, MonitorAction::EndRound(1)),
            MonitorEvent::Lockfile(Ok(content)) => {
                if session.is_initialized() {
                    (MonitorStage::CheckIdentity(content), MonitorAction::FetchEntitlements)
                } else {
                    compare_lockfile(session, content, "")
                }
            },
            _ => (MonitorStage::Done, MonitorAction::EndRound(1)),
        },
        MonitorStage::CheckIdentity(content) => match event {
            MonitorEvent::Entitlements(result) => step_identity(content, result),
            _ => (MonitorStage::Done, MonitorAction::EndRound(1)),
        },
        MonitorStage::Compare(content, check) => compare_lockfile(session, content, check.as_str()),
        MonitorStage::InstallLocal => {
            session.local_initialized = true;
            (MonitorStage::Entitlements, MonitorAction::FetchEntitlements)
        },
        MonitorStage::Entitlements => match event {
            MonitorEvent::Entitlements(result) => step_entitlements(session, result),
            _ => (MonitorStage::Done, MonitorAction::EndRound(0)),
        },
        MonitorStage::InstallAuth => {
            session.auth_initialized = true;
            (MonitorStage::Userinfo, MonitorAction::FetchUserinfo)
        },
        MonitorStage::Userinfo => match event {
            MonitorEvent::Userinfo(result) => step_userinfo(session, result),
            _ => (MonitorStage::Done, MonitorAction::EndRound(1)),
        },
        MonitorStage::Done => (MonitorStage::Done, MonitorAction::EndRound(1)),
    }
}

/// A round that compares a lockfile installs the local client again
/// exactly when the lockfile has its five fields and either it is not the
/// one the session was built from or another player than the session's is
/// signed in; the new client authenticates with the lockfile's password.
/// Otherwise the round ends and the session, tokens and name included, is
/// kept as it was.
pub proof fn law_lockfile_or_player_change_reinstalls(
    old_s: ValorantAPI,
    new_s: ValorantAPI,
    content: Seq<char>,
    check: Seq<char>,
    r: (MonitorStage, MonitorAction),
)
    requires
        compare_step(old_s, new_s, content, check, r),
    ensures
        (r.0 == MonitorStage::InstallLocal) <==> (split_char(content, ':').len() >= 5 && (
        old_s.raw_lockfile@ != content || old_s.puuid@ != check)),
        r.0 == MonitorStage::InstallLocal ==> (r.1 matches MonitorAction::InstallLocalClient(h) && h@
            == basic_authorization(split_char(content, ':')[3]) && new_s.raw_lockfile@ == content
            && new_s.puuid == old_s.puuid),
        r.0 != MonitorStage::InstallLocal ==> new_s == old_s && r.1 == MonitorAction::EndRound(1),
{
}

} // verus!
