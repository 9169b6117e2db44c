//! The client of the Riot Local API: what it decides about its requests,
//! how it is (re)built from the lockfile, and how it reads the region, the
//! player's presence and the game state from the answers.
use vstd::prelude::*;
use vstd::utf8::{decode_utf8, encode_utf8, valid_utf8};

use crate::codec::{
    base64_decode, base64_decode_error_text, base64_decode_str, base64_encode, lemma_base64_injective,
    utf8_error_text, utf8_string,
};
use crate::json::JsonValue;
use crate::models::lockfile::{basic_authorization, basic_authorization_for};
use crate::riot::response::{header_value_ok, law_basic_authorization_is_valid_header};
use crate::riot_api::data::{AuthToken, UserData};
use crate::riot_api::models::local::{AccountAlias, Entitlements, PresenceData, PrivatePresence};
use crate::riot_api::response::{unknown, RequestError};
use crate::riot_api::shared::SharedGameData;
use crate::text::{chars_of, concat2, concat3, split_char, split_chars, str_eq, string_of};

verus! {

/// The address the Local API is probed at before a request.
pub fn local_socket_address(port: &str) -> (r: String)
    ensures
        r@ == "127.0.0.1:"@ + port@,
{
    concat2("127.0.0.1:", port)
}

/// The address of `path` on the Local API at `port`.
pub fn local_request_url(port: &str, path: &str) -> (r: String)
    ensures
        r@ == "https://127.0.0.1:"@ + port@ + path@,
{
    concat3("https://127.0.0.1:", port, path)
}

/// Port and password of a lockfile text: its third and fourth fields.
pub fn lockfile_credentials(text: &str) -> (r: (String, String))
    requires
        split_char(text@, ':').len() >= 4,
    ensures
        r.0@ == split_char(text@, ':')[2],
        r.1@ == split_char(text@, ':')[3],
{
    let cs = chars_of(text);
    let fields = split_chars(&cs, ':');
    (string_of(&fields[2]), string_of(&fields[3]))
}

/// The `Authorization` value of the Local API for a password; it is
/// always a valid header value.
pub fn basic_header_value(password: &str) -> (r: String)
    ensures
        r@ == basic_authorization(password@),
        header_value_ok(r@),
{
    proof {
        law_basic_authorization_is_valid_header(password@);
    }
    basic_authorization_for(password)
}

/// Where a build of the local client stands.
pub enum LocalBuildStage {
    ReadLockfile,
    InstallClient,
    Entitlements,
    Alias(Entitlements),
    Region(Entitlements, AccountAlias),
    Done,
}

/// The outcome of the last action of a build.
pub enum LocalBuildEvent {
    /// The lockfile text, or the message of the read error.
    Lockfile(Result<String, String>),
    /// The HTTP client was installed.
    ClientInstalled,
    Entitlements(Result<Entitlements, RequestError>),
    Alias(Result<AccountAlias, RequestError>),
    Region(Result<String, RequestError>),
}

/// What the caller does next in a build.
pub enum LocalBuildAction {
    ReadLockfile,
    /// Install an HTTP client with this `Authorization` value, then report
    /// `ClientInstalled`.
    InstallClient(String),
    /// Ask for the entitlements, skipping the reset check.
    FetchEntitlements,
    /// Ask for the account alias, skipping the reset check.
    FetchAlias,
    /// Ask for the region, skipping the reset check.
    FetchRegion,
    /// The build is over with this result.
    Finish(Result<(), String>),
}

/// Whether an event answers what a build stage waits on. A lockfile has at
/// least four fields (the build reads its third and fourth); errors can be
/// displayed.
pub open spec fn build_event_fits(stage: LocalBuildStage, event: LocalBuildEvent) -> bool {
    match stage {
        LocalBuildStage::ReadLockfile => event matches LocalBuildEvent::Lockfile(result) && (result matches Ok(
            t,
        ) ==> split_char(t@, ':').len() >= 4),
        LocalBuildStage::InstallClient => event is ClientInstalled,
        LocalBuildStage::Entitlements => event matches LocalBuildEvent::Entitlements(result) && (result matches Err(
            e,
        ) ==> e.wf()),
        LocalBuildStage::Alias(_) => event matches LocalBuildEvent::Alias(result) && (result matches Err(
            e,
        ) ==> e.wf()),
        LocalBuildStage::Region(_, _) => event is Region,
        LocalBuildStage::Done => false,
    }
}

/// The first action of a build.
pub fn start_local_build() -> (r: (LocalBuildStage, LocalBuildAction))
    ensures
        r.0 == LocalBuildStage::ReadLockfile,
        r.1 == LocalBuildAction::ReadLockfile,
{
    (LocalBuildStage::ReadLockfile, LocalBuildAction::ReadLockfile)
}

/// One step of the build of the local client: the lockfile gives the port
/// and password, the entitlements the tokens, the alias and the region the
/// player. The region is asked for until it is had.
pub fn local_build_step(shared: &mut SharedGameData, stage: LocalBuildStage, event: LocalBuildEvent) -> (r: (
    LocalBuildStage,
    LocalBuildAction,
))
    requires
        build_event_fits(stage, event),
    ensures
        final(shared).need_reset == old(shared).need_reset,
        match (stage, event) {
            (LocalBuildStage::ReadLockfile, LocalBuildEvent::Lockfile(Err(msg))) => *final(shared)
                == *old(shared) && r.0 == LocalBuildStage::Done && (r.1 matches LocalBuildAction::Finish(
                Err(m),
            ) && m@ == "[LocalClient::build] I CANT READ LOCKFILE: "@ + msg@),
            (LocalBuildStage::ReadLockfile, LocalBuildEvent::Lockfile(Ok(text))) => {
                &&& final(shared).auth_data.lockfile_port@ == split_char(text@, ':')[2]
                &&& final(shared).auth_data.lockfile_password@ == split_char(text@, ':')[3]
                &&& final(shared).auth_data.access_token == old(shared).auth_data.access_token
                &&& final(shared).auth_data.entitlements_token == old(
                    shared,
                ).auth_data.entitlements_token
                &&& final(shared).user_data == old(shared).user_data
                &&& r.0 == LocalBuildStage::InstallClient
                &&& r.1 matches LocalBuildAction::InstallClient(h) && h@ == basic_authorization(
                    split_char(text@, ':')[3],
                ) && header_value_ok(h@)
            },
            (LocalBuildStage::InstallClient, _) => *final(shared) == *old(shared) && r.0
                == LocalBuildStage::Entitlements && r.1 == LocalBuildAction::FetchEntitlements,
            (LocalBuildStage::Entitlements, LocalBuildEvent::Entitlements(result)) => match result {
                Ok(ent) => {
                    &&& final(shared).auth_data.access_token == ent.access_token
                    &&& final(shared).auth_data.entitlements_token == ent.token
                    &&& final(shared).auth_data.lockfile_port == old(shared).auth_data.lockfile_port
                    &&& final(shared).auth_data.lockfile_password == old(
                        shared,
                    ).auth_data.lockfile_password
                    &&& final(shared).user_data == old(shared).user_data
                    &&& r.0 == LocalBuildStage::Alias(ent)
                    &&& r.1 == LocalBuildAction::FetchAlias
                },
                Err(e) => *final(shared) == *old(shared) && r.0 == LocalBuildStage::Done && (r.1 matches LocalBuildAction::Finish(
                    Err(m),
                ) && m@ == "Failed to obtain entitlements data: "@ + e.message_text()),
            },
            (LocalBuildStage::Alias(ent), LocalBuildEvent::Alias(result)) => *final(shared) == *old(
                shared,
            ) && match result {
                Ok(alias) => r.0 == LocalBuildStage::Region(ent, alias) && r.1
                    == LocalBuildAction::FetchRegion,
                Err(e) => r.0 == LocalBuildStage::Done && (r.1 matches LocalBuildAction::Finish(Err(m))
                    && m@ == "Failed to obtain account alias: "@ + e.message_text()),
            },
            (LocalBuildStage::Region(ent, alias), LocalBuildEvent::Region(result)) => match result {
                Ok(region) => {
                    &&& final(shared).user_data == (UserData {
                        puuid: ent.subject,
                        name: alias.game_name,
                        tag: alias.tag_line,
                        region: region,
                    })
                    &&& final(shared).auth_data == old(shared).auth_data
                    &&& r.0 == LocalBuildStage::Done
                    &&& r.1 == LocalBuildAction::Finish(Ok(()))
                },
                Err(_) => *final(shared) == *old(shared) && r.0 == LocalBuildStage::Region(ent, alias)
                    && r.1 == LocalBuildAction::FetchRegion,
            },
            _ => false,
        },
{
    match stage {
        LocalBuildStage::ReadLockfile => match event {
            LocalBuildEvent::Lockfile(Err(msg)) => (
                LocalBuildStage::Done,
                LocalBuildAction::Finish(Err(concat2("[LocalClient::build] I CANT READ LOCKFILE: ", msg.as_str()))),
            ),
            LocalBuildEvent::Lockfile(Ok(text)) => {
                let (port, password) = lockfile_credentials(text.as_str());
                let header = basic_header_value(password.as_str());
                shared.auth_data.lockfile_port = port;
                shared.auth_data.lockfile_password = password;
                (LocalBuildStage::InstallClient, LocalBuildAction::InstallClient(header))
            },
            _ => (LocalBuildStage::Done, LocalBuildAction::Finish(Ok(()))),
        },
        LocalBuildStage::InstallClient => (LocalBuildStage::Entitlements, LocalBuildAction::FetchEntitlements),
        LocalBuildStage::Entitlements => match event {
            LocalBuildEvent::Entitlements(Ok(ent)) => {
                shared.auth_data.access_token = ent.access_token.clone();
                shared.auth_data.entitlements_token = ent.token.clone();
                (LocalBuildStage::Alias(ent), LocalBuildAction::FetchAlias)
            },
            LocalBuildEvent::Entitlements(Err(e)) => {
                let m = e.message();
                (
                    LocalBuildStage::Done,
                    LocalBuildAction::Finish(Err(concat2("Failed to obtain entitlements data: ", m.as_str()))),
                )
            },
            _ => (LocalBuildStage::Done, LocalBuildAction::Finish(Ok(()))),
        },
        LocalBuildStage::Alias(ent) => match event {
            LocalBuildEvent::Alias(Ok(alias)) => (LocalBuildStage::Region(ent, alias), LocalBuildAction::FetchRegion),
            LocalBuildEvent::Alias(Err(e)) => {
                let m = e.message();
                (
                    LocalBuildStage::Done,
                    LocalBuildAction::Finish(Err(concat2("Failed to obtain account alias: ", m.as_str()))),
                )
            },
            _ => (LocalBuildStage::Done, LocalBuildAction::Finish(Ok(()))),
        },
        LocalBuildStage::Region(ent, alias) => match event {
            LocalBuildEvent::Region(Ok(region)) => {
                shared.user_data = UserData {
                    puuid: ent.subject,
                    name: alias.game_name,
                    tag: alias.tag_line,
                    region,
                };
                (LocalBuildStage::Done, LocalBuildAction::Finish(Ok(())))
            },
            LocalBuildEvent::Region(Err(_)) => (LocalBuildStage::Region(ent, alias), LocalBuildAction::FetchRegion),
            _ => (LocalBuildStage::Done, LocalBuildAction::Finish(Ok(()))),
        },
        LocalBuildStage::Done => (LocalBuildStage::Done, LocalBuildAction::Finish(Ok(()))),
    }
}

/// Index of the first member of an object whose name is not `host_app`.
pub open spec fn first_product_key(entries: Seq<(String, JsonValue)>) -> Option<int>
    decreases entries.len(),
{
    if entries.len() == 0 {
        None
    } else if entries[0].0@ != "host_app"@ {
        Some(0)
    } else {
        match first_product_key(entries.drop_first()) {
            Some(i) => Some(i + 1),
            None => None,
        }
    }
}

/// The region the external sessions name: the fifth launch argument of the
/// first product that is not the host app, after its first `=`.
pub open spec fn sessions_region(res: JsonValue) -> Result<Seq<char>, Seq<char>> {
    match res {
        JsonValue::Object(entries) => match first_product_key(entries@) {
            None => Err("Cannot find key"@),
            Some(k) => match res.at(entries@[k].0@).at("launchConfiguration"@).at("arguments"@) {
                JsonValue::Array(args) => if args@.len() > 4 && args@[4] is Str {
                    let parts = split_char(args@[4]->Str_0@, '=');
                    if parts.len() >= 2 {
                        Ok(parts[1])
                    } else {
                        Err("Failed to get region"@)
                    }
                } else {
                    Err("Region argument not found"@)
                },
                _ => Err("Failed to get arguments as array"@),
            },
        },
        _ => Err("Failed to obtain session json"@),
    }
}

fn first_product_key_index(entries: &Vec<(String, JsonValue)>) -> (r: Option<usize>)
    ensures
        r matches Some(i) ==> first_product_key(entries@) == Some(i as int) && i < entries@.len(),
        r is None ==> first_product_key(entries@) is None,
{
    let ghost all = entries@;
    let mut i: usize = 0;
    assert(all.skip(0) =~= all);
    while i < entries.len()
        invariant
            i <= entries.len(),
            entries@ == all,
            first_product_key(all) == match first_product_key(all.skip(i as int)) {
                Some(j) => Some(j + i),
                None => None,
            },
        decreases entries.len() - i,
    {
        assert(all.skip(i as int)[0] == all[i as int]);
        if !str_eq(entries[i].0.as_str(), "host_app") {
            return Some(i);
        }
        assert(all.skip(i as int).drop_first() =~= all.skip(i + 1));
        i += 1;
    }
    assert(all.skip(i as int).len() == 0);
    None
}

/// Reads the region from the answer of `/product-session/v1/external-sessions`.
pub fn region_from_sessions(res: &JsonValue) -> (r: Result<String, RequestError>)
    ensures
        sessions_region(*res) matches Ok(region) ==> (r matches Ok(s) && s@ == region),
        sessions_region(*res) matches Err(msg) ==> (r matches Err(e) && (e matches RequestError::Unknown(m)
            && m@ == msg)),
{
    let entries = match res {
        JsonValue::Object(entries) => entries,
        _ => {
            return Err(unknown("Failed to obtain session json"));
        },
    };
    let k = match first_product_key_index(entries) {
        Some(k) => k,
        None => {
            return Err(unknown("Cannot find key"));
        },
    };
    let key = entries[k].0.as_str();
    let arguments = match res.index(key).index("launchConfiguration").index("arguments").as_array() {
        Some(a) => a,
        None => {
            return Err(unknown("Failed to get arguments as array"));
        },
    };
    if arguments.len() <= 4 {
        return Err(unknown("Region argument not found"));
    }
    let arg = match arguments[4].as_str() {
        Some(s) => s,
        None => {
            return Err(unknown("Region argument not found"));
        },
    };
    let cs = chars_of(arg);
    let parts = split_chars(&cs, '=');
    if parts.len() >= 2 {
        Ok(string_of(&parts[1]))
    } else {
        Err(unknown("Failed to get region"))
    }
}

/// Index of the first presence of the player in VALORANT.
pub open spec fn valorant_presence_index(presences: Seq<PresenceData>, puuid: Seq<char>) -> Option<int>
    decreases presences.len(),
{
    if presences.len() == 0 {
        None
    } else if presences[0].puuid@ == puuid && presences[0].product@ == "valorant"@ {
        Some(0)
    } else {
        match valorant_presence_index(presences.drop_first(), puuid) {
            Some(i) => Some(i + 1),
            None => None,
        }
    }
}

/// The first presence of the player `me` in VALORANT.
pub fn find_valorant_presence(presences: Vec<PresenceData>, me: &str) -> (r: Result<PresenceData, RequestError>)
    ensures
        valorant_presence_index(presences@, me@) matches Some(i) ==> r == Ok::<PresenceData, RequestError>(
            presences@[i],
        ),
        valorant_presence_index(presences@, me@) is None ==> (r matches Err(e) && (e matches RequestError::Unknown(
            m,
        ) && m@ == "Cannot find me"@)),
{
    let ghost all = presences@;
    let mut rest = presences;
    let mut i: usize = 0;
    assert(all.skip(0) =~= all);
    while i < rest.len()
        invariant
            i <= rest.len(),
            rest@ == all,
            presences@ == all,
            valorant_presence_index(all, me@) == match valorant_presence_index(all.skip(i as int), me@) {
                Some(j) => Some(j + i),
                None => None,
            },
        decreases rest.len() - i,
    {
        assert(all.skip(i as int)[0] == all[i as int]);
        if str_eq(rest[i].puuid.as_str(), me) && str_eq(rest[i].product.as_str(), "valorant") {
            assert(valorant_presence_index(all.skip(i as int), me@) == Some(0int));
            let entry = rest.remove(i);
            return Ok(entry);
        }
        assert(all.skip(i as int).drop_first() =~= all.skip(i + 1));
        i += 1;
    }
    assert(all.skip(i as int).len() == 0);
    Err(unknown("Cannot find me"))
}

/// The JSON text of a presence's private part: base64 of UTF-8. Every
/// failure is reported as `Unknown` with the decoder's message.
pub fn private_presence_text(me: &PresenceData) -> (r: Result<String, RequestError>)
    ensures
        match me.private {
            None => r matches Err(e) && (e matches RequestError::Unknown(m) && m@
                == "Cannot get private presence"@),
            Some(p) => match base64_decode(p@) {
                None => r matches Err(e) && (e matches RequestError::Unknown(m) && m@
                    == base64_decode_error_text(encode_utf8(p@))),
                Some(b) => if valid_utf8(b) {
                    r matches Ok(s) && s@ == decode_utf8(b)
                } else {
                    r matches Err(e) && (e matches RequestError::Unknown(m) && m@ == utf8_error_text(b))
                },
            },
        },
{
    let encoded = match &me.private {
        Some(p) => p,
        None => {
            return Err(unknown("Cannot get private presence"));
        },
    };
    let bytes = match base64_decode_str(encoded.as_str()) {
        Ok(b) => b,
        Err(e) => {
            return Err(RequestError::Unknown(e));
        },
    };
    proof {
        let text = encoded@;
        assert(base64_encode(bytes@) == text);
        assert(exists|c: Seq<u8>| base64_encode(c) == text);
        let c = choose|c: Seq<u8>| base64_encode(c) == text;
        lemma_base64_injective(c, bytes@);
    }
    match utf8_string(bytes) {
        Ok(s) => Ok(s),
        Err(e) => Err(RequestError::Unknown(e)),
    }
}

/// The game state of a decoded private presence.
pub fn gamestate_of(private: &PrivatePresence) -> (r: Result<String, RequestError>)
    ensures
        match private.match_presence_data {
            None => r matches Err(e) && (e matches RequestError::Unknown(m) && m@
                == "cannot get match presence"@),
            Some(d) => match d.session_loop_state {
                None => r matches Err(e) && (e matches RequestError::Unknown(m) && m@
                    == "cannot get session loop state"@),
                Some(s) => r == Ok::<String, RequestError>(s),
            },
        },
{
    match &private.match_presence_data {
        None => Err(unknown("cannot get match presence")),
        Some(d) => match &d.session_loop_state {
            None => Err(unknown("cannot get session loop state")),
            Some(s) => Ok(s.clone()),
        },
    }
}

} // verus!
