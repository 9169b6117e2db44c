//! The lockfile watcher: one probe of the Riot Client session, written as
//! a machine that the caller drives. The caller performs each action (read
//! the lockfile, ask an API, build an HTTP client) and hands the outcome
//! back as the next event; the machine decides and keeps `ValorantApi`.
use vstd::prelude::*;

use crate::errors::{AppError, AppResult};
use crate::models::auth::{snapshot_of, AuthSnapshot, EntitlementsResponse, UserInfoResponse};
use crate::models::lockfile::{basic_authorization, lockfile_fields, short_lockfile_message, LockfileData};
use crate::riot::auth::{bearer_authorization, bearer_value};
use crate::riot::local::local_authorization;
use crate::riot::response::header_value_ok;
use crate::riot::session::ValorantApi;
use crate::text::concat2;

verus! {

/// Where a probe stands.
pub enum TickStage {
    /// Waiting for the lockfile text.
    ReadLockfile,
    /// Waiting for the entitlements that tell who is signed in now.
    CheckIdentity(LockfileData),
    /// Waiting for the local client built from this lockfile.
    ConnectLocal(LockfileData),
    /// Waiting for the entitlements of the new local session.
    Entitlements,
    /// Waiting for the auth client built from these entitlements.
    ConnectAuth(EntitlementsResponse),
    /// Waiting for the user info; holds the entitlements.
    Userinfo(EntitlementsResponse),
    /// Waiting for the PVP client.
    PvpClient,
    /// The probe is over.
    Finished,
}

/// The outcome of the last action.
pub enum TickEvent {
    Lockfile(AppResult<String>),
    Entitlements(AppResult<EntitlementsResponse>),
    Connected(AppResult<()>),
    Userinfo(AppResult<UserInfoResponse>),
    PvpClientBuilt(AppResult<()>),
}

/// What the caller does next.
pub enum TickAction {
    /// Read the lockfile (`Lockfile` event).
    ReadLockfile,
    /// Ask the Local API for `/entitlements/v1/token` (`Entitlements` event).
    FetchEntitlements,
    /// Build the local client with this `Authorization` header (`Connected`).
    ConnectLocal(String),
    /// Build the auth client with this `Authorization` header (`Connected`).
    ConnectAuth(String),
    /// Ask the auth API for `/userinfo` (`Userinfo` event).
    FetchUserinfo,
    /// Build the PVP client from the session's auth snapshot (`PvpClientBuilt`).
    BuildPvpClient,
    /// The probe is over with this result.
    Finish(AppResult<()>),
}

/// Whether an event answers the action a stage waits on.
pub open spec fn event_fits(stage: TickStage, event: TickEvent) -> bool {
    match stage {
        TickStage::ReadLockfile => event is Lockfile,
        TickStage::CheckIdentity(_) => event is Entitlements,
        TickStage::ConnectLocal(_) => event is Connected,
        TickStage::Entitlements => event is Entitlements,
        TickStage::ConnectAuth(_) => event is Connected,
        TickStage::Userinfo(_) => event is Userinfo,
        TickStage::PvpClient => event is PvpClientBuilt,
        TickStage::Finished => false,
    }
}

/// Whether `l` is what `LockfileData::parse` makes of `text`.
pub open spec fn parsed_from(l: LockfileData, text: String) -> bool {
    &&& l.name@ == lockfile_fields(text@)[0]
    &&& l.pid@ == lockfile_fields(text@)[1]
    &&& l.port@ == lockfile_fields(text@)[2]
    &&& l.password@ == lockfile_fields(text@)[3]
    &&& l.protocol@ == lockfile_fields(text@)[4]
    &&& l.raw == text
}

/// The step after a lockfile was parsed and the signed-in player is known:
/// nothing to do when neither changed, else build the local client.
pub open spec fn refresh_step(
    state: ValorantApi,
    lockfile: LockfileData,
    current_puuid: Seq<char>,
    r: (TickStage, TickAction),
) -> bool {
    if state.raw_lockfile@ == lockfile.raw@ && state.auth_snapshot.puuid@ == current_puuid {
        r.0 == TickStage::Finished && r.1 == TickAction::Finish(Ok(()))
    } else {
        r.0 == TickStage::ConnectLocal(lockfile) && (r.1 matches TickAction::ConnectLocal(h) && h@
            == basic_authorization(lockfile.password@))
    }
}

/// How a fetch that may find the session not ready yet ends the probe:
/// not ready is no failure.
pub open spec fn tolerated(e: AppError, r: (TickStage, TickAction)) -> bool {
    &&& r.0 == TickStage::Finished
    &&& e is RiotSessionNotReady ==> r.1 == TickAction::Finish(Ok(()))
    &&& !(e is RiotSessionNotReady) ==> r.1 == TickAction::Finish(Err(e))
}

/// The first action of a probe.
pub fn start_tick() -> (r: (TickStage, TickAction))
    ensures
        r.0 == TickStage::ReadLockfile,
        r.1 == TickAction::ReadLockfile,
{
    (TickStage::ReadLockfile, TickAction::ReadLockfile)
}

fn refresh_or_finish(state: &ValorantApi, lockfile: LockfileData, current_puuid: &str) -> (r: (
    TickStage,
    TickAction,
))
    ensures
        refresh_step(*state, lockfile, current_puuid@, r),
{
    if !state.needs_refresh(&lockfile, current_puuid) {
        return (TickStage::Finished, TickAction::Finish(Ok(())));
    }
    match local_authorization(&lockfile) {
        Ok(header) => (TickStage::ConnectLocal(lockfile), TickAction::ConnectLocal(header.1)),
        Err(e) => (TickStage::Finished, TickAction::Finish(Err(e))),
    }
}

/// What one step of a probe does: the state after it and the next stage
/// and action, from the state before it, the stage and the event.
pub open spec fn tick_outcome(
    before: ValorantApi,
    stage: TickStage,
    event: TickEvent,
    after: ValorantApi,
    r: (TickStage, TickAction),
) -> bool {
    match (stage, event) {
        (TickStage::ReadLockfile, TickEvent::Lockfile(Err(e))) => after == before
            && r.0 == TickStage::Finished && r.1 == TickAction::Finish(Err(e)),
        (TickStage::ReadLockfile, TickEvent::Lockfile(Ok(text))) => after == before
            && if lockfile_fields(text@).len() < 5 {
            r.0 == TickStage::Finished && (r.1 matches TickAction::Finish(Err(e)) && (e matches AppError::InvalidResponse(
                m,
            ) && m@ == short_lockfile_message()))
        } else if before.pvp_initialized {
            r.1 == TickAction::FetchEntitlements && (r.0 matches TickStage::CheckIdentity(l)
                && parsed_from(l, text))
        } else {
            exists|l: LockfileData| parsed_from(l, text) && refresh_step(before, l, ""@, r)
        },
        (TickStage::CheckIdentity(lockfile), TickEvent::Entitlements(result)) => after
            == before && match result {
            Ok(ent) => refresh_step(before, lockfile, ent.subject@, r),
            Err(_) => refresh_step(before, lockfile, ""@, r),
        },
        (TickStage::ConnectLocal(lockfile), TickEvent::Connected(result)) => match result {
            Ok(()) => {
                &&& after == (ValorantApi {
                    raw_lockfile: lockfile.raw,
                    local_session: Some(lockfile),
                    region: None,
                    local_initialized: true,
                    ..before
                })
                &&& r.0 == TickStage::Entitlements
                &&& r.1 == TickAction::FetchEntitlements
            },
            Err(e) => after == before && r.0 == TickStage::Finished && r.1
                == TickAction::Finish(Err(e)),
        },
        (TickStage::Entitlements, TickEvent::Entitlements(result)) => after == before && match result {
            Ok(ent) => if header_value_ok(bearer_value(ent.access_token@)) {
                r.0 == TickStage::ConnectAuth(ent) && (r.1 matches TickAction::ConnectAuth(h) && h@
                    == bearer_value(ent.access_token@))
            } else {
                r.0 == TickStage::Finished && (r.1 matches TickAction::Finish(Err(e)) && e is Header)
            },
            Err(e) => tolerated(e, r),
        },
        (TickStage::ConnectAuth(ent), TickEvent::Connected(result)) => match result {
            Ok(()) => {
                &&& after == (ValorantApi {
                    has_auth_session: true,
                    auth_initialized: true,
                    ..before
                })
                &&& r.0 == TickStage::Userinfo(ent)
                &&& r.1 == TickAction::FetchUserinfo
            },
            Err(e) => after == before && r.0 == TickStage::Finished && r.1
                == TickAction::Finish(Err(e)),
        },
        (TickStage::Userinfo(ent), TickEvent::Userinfo(result)) => match result {
            Ok(info) => {
                &&& after == (ValorantApi {
                    auth_snapshot: AuthSnapshot {
                        access_token: ent.access_token,
                        entitlements_token: ent.token,
                        puuid: ent.subject,
                        game_name: info.acct.game_name,
                        tag_line: info.acct.tag_line,
                    },
                    ..before
                })
                &&& r.0 == TickStage::PvpClient
                &&& r.1 == TickAction::BuildPvpClient
            },
            Err(e) => after == before && tolerated(e, r),
        },
        (TickStage::PvpClient, TickEvent::PvpClientBuilt(result)) => match result {
            Ok(()) => {
                &&& after == (ValorantApi {
                    has_pvp_client: true,
                    pvp_initialized: true,
                    ..before
                })
                &&& r.0 == TickStage::Finished
                &&& r.1 == TickAction::Finish(Ok(()))
            },
            Err(e) => after == before && tolerated(e, r),
        },
        _ => false,
    }
}

/// One step of a probe of the Riot session.
pub fn tick_step(state: &mut ValorantApi, stage: TickStage, event: TickEvent) -> (r: (
    TickStage,
    TickAction,
))
    requires
        old(state).wf(),
        event_fits(stage, event),
    ensures
        final(state).wf(),
        tick_outcome(*old(state), stage, event, *final(state), r),
{
    match stage {
        TickStage::ReadLockfile => match event {
            TickEvent::Lockfile(Err(e)) => (TickStage::Finished, TickAction::Finish(Err(e))),
            TickEvent::Lockfile(Ok(text)) => {
                let ghost raw = text;
                match LockfileData::parse(text) {
                    Err(e) => (TickStage::Finished, TickAction::Finish(Err(e))),
                    Ok(lockfile) => {
                        if state.is_initialized() {
                            (TickStage::CheckIdentity(lockfile), TickAction::FetchEntitlements)
                        } else {
                            let ghost l = lockfile;
                            let r = refresh_or_finish(state, lockfile, "");
                            assert(refresh_step(*state, l, ""@, r));
                            assert(parsed_from(l, raw));
                            r
                        }
                    },
                }
            },
            _ => (TickStage::Finished, TickAction::Finish(Ok(()))),
        },
        TickStage::CheckIdentity(lockfile) => match event {
            TickEvent::Entitlements(Ok(ent)) => refresh_or_finish(state, lockfile, ent.subject.as_str()),
            TickEvent::Entitlements(Err(_)) => refresh_or_finish(state, lockfile, ""),
            _ => (TickStage::Finished, TickAction::Finish(Ok(()))),
        },
        TickStage::ConnectLocal(lockfile) => match event {
            TickEvent::Connected(Ok(())) => {
                state.set_local_session(lockfile);
                (TickStage::Entitlements, TickAction::FetchEntitlements)
            },
            TickEvent::Connected(Err(e)) => (TickStage::Finished, TickAction::Finish(Err(e))),
            _ => (TickStage::Finished, TickAction::Finish(Ok(()))),
        },
        TickStage::Entitlements => match event {
            TickEvent::Entitlements(Ok(ent)) => match bearer_authorization(ent.access_token.as_str()) {
                Ok(header) => (TickStage::ConnectAuth(ent), TickAction::ConnectAuth(header.1)),
                Err(e) => (TickStage::Finished, TickAction::Finish(Err(e))),
            },
            TickEvent::Entitlements(Err(e)) => (TickStage::Finished, TickAction::Finish(tolerate(e))),
            _ => (TickStage::Finished, TickAction::Finish(Ok(()))),
        },
        TickStage::ConnectAuth(ent) => match event {
            TickEvent::Connected(Ok(())) => {
                state.set_auth_session();
                (TickStage::Userinfo(ent), TickAction::FetchUserinfo)
            },
            TickEvent::Connected(Err(e)) => (TickStage::Finished, TickAction::Finish(Err(e))),
            _ => (TickStage::Finished, TickAction::Finish(Ok(()))),
        },
        TickStage::Userinfo(ent) => match event {
            TickEvent::Userinfo(Ok(info)) => {
                state.set_auth_snapshot(snapshot_of(ent, info));
                (TickStage::PvpClient, TickAction::BuildPvpClient)
            },
            TickEvent::Userinfo(Err(e)) => (TickStage::Finished, TickAction::Finish(tolerate(e))),
            _ => (TickStage::Finished, TickAction::Finish(Ok(()))),
        },
        TickStage::PvpClient => match event {
            TickEvent::PvpClientBuilt(Ok(())) => {
                state.set_pvp_client();
                (TickStage::Finished, TickAction::Finish(Ok(())))
            },
            TickEvent::PvpClientBuilt(Err(e)) => (TickStage::Finished, TickAction::Finish(tolerate(e))),
            _ => (TickStage::Finished, TickAction::Finish(Ok(()))),
        },
        TickStage::Finished => (TickStage::Finished, TickAction::Finish(Ok(()))),
    }
}

/// A fetch that finds the session not ready yet ends the probe without
/// failure; any other error is the probe's error.
pub fn tolerate(error: AppError) -> (r: AppResult<()>)
    ensures
        error is RiotSessionNotReady ==> r == Ok::<(), AppError>(()),
        !(error is RiotSessionNotReady) ==> r == Err::<(), AppError>(error),
{
    if error.is_session_not_ready() {
        Ok(())
    } else {
        Err(error)
    }
}

/// How long the watcher waits before the next probe, and whether the
/// session is to be cleared first.
pub struct ProbeDelay {
    pub seconds: u64,
    pub clear_session: bool,
}

/// After a good probe the watcher looks again in a second; without a
/// lockfile (the Riot Client is not running) it clears the session and
/// waits five seconds; on any other failure it waits two.
pub fn probe_delay(result: &AppResult<()>) -> (r: ProbeDelay)
    ensures
        result is Ok ==> r.seconds == 1 && !r.clear_session,
        result matches Err(e) ==> (e is LockfileNotFound ==> r.seconds == 5 && r.clear_session),
        result matches Err(e) ==> (!(e is LockfileNotFound) ==> r.seconds == 2 && !r.clear_session),
{
    match result {
        Ok(()) => ProbeDelay { seconds: 1, clear_session: false },
        Err(AppError::LockfileNotFound) => ProbeDelay { seconds: 5, clear_session: true },
        Err(_) => ProbeDelay { seconds: 2, clear_session: false },
    }
}

/// The lockfile of the Riot Client under the local application data
/// directory.
pub fn lockfile_path(local_appdata: &str) -> (r: String)
    ensures
        r@ == local_appdata@ + "\\Riot Games\\Riot Client\\Config\\lockfile"@,
{
    concat2(local_appdata, "\\Riot Games\\Riot Client\\Config\\lockfile")
}

/// The error of a failed lockfile read: a missing file means the Riot
/// Client is not running; anything else is an I/O error with its message.
pub fn lockfile_read_error(not_found: bool, message: &str) -> (r: AppError)
    ensures
        not_found ==> r == AppError::LockfileNotFound,
        !not_found ==> (r matches AppError::Io(m) && m@ == message@),
{
    if not_found {
        AppError::LockfileNotFound
    } else {
        AppError::Io(message.to_owned())
    }
}

/// A probe of a set-up session that reads the lockfile the session was
/// built from, while the same player is signed in, ends without failure
/// and leaves the session as it was.
pub proof fn law_unchanged_lockfile_keeps_session(
    s0: ValorantApi,
    text: String,
    s1: ValorantApi,
    r1: (TickStage, TickAction),
    ent: EntitlementsResponse,
    s2: ValorantApi,
    r2: (TickStage, TickAction),
)
    requires
        s0.wf(),
        s0.pvp_initialized,
        text@ == s0.raw_lockfile@,
        lockfile_fields(text@).len() >= 5,
        tick_outcome(s0, TickStage::ReadLockfile, TickEvent::Lockfile(Ok(text)), s1, r1),
        ent.subject@ == s0.auth_snapshot.puuid@,
        tick_outcome(s1, r1.0, TickEvent::Entitlements(Ok(ent)), s2, r2),
    ensures
        s2 == s0,
        r2.1 == TickAction::Finish(Ok(())),
{
}

/// A probe that reads a lockfile other than the one the session was built
/// from reconnects the Local API with the new lockfile's credentials.
pub proof fn law_new_lockfile_reconnects(
    s0: ValorantApi,
    text: String,
    s1: ValorantApi,
    r1: (TickStage, TickAction),
)
    requires
        s0.wf(),
        !s0.pvp_initialized,
        text@ != s0.raw_lockfile@,
        lockfile_fields(text@).len() >= 5,
        tick_outcome(s0, TickStage::ReadLockfile, TickEvent::Lockfile(Ok(text)), s1, r1),
    ensures
        s1 == s0,
        r1.0 matches TickStage::ConnectLocal(l) && l.raw == text,
        r1.1 matches TickAction::ConnectLocal(h) && h@ == basic_authorization(lockfile_fields(text@)[3]),
{
}

} // verus!
