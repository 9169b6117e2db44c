//! The state of the Riot session: the lockfile the local client was built
//! from, which API clients exist, the cached region and the auth snapshot.
//! The HTTP clients themselves are held next to this state by the caller;
//! `has_auth_session` and `has_pvp_client` record that they exist.
use vstd::prelude::*;

use crate::models::auth::{riot_id, AuthSnapshot};
use crate::models::lockfile::LockfileData;

verus! {

/// The state of the Riot session.
pub struct ValorantApi {
    pub raw_lockfile: String,
    pub local_session: Option<LockfileData>,
    pub has_auth_session: bool,
    pub has_pvp_client: bool,
    pub region: Option<String>,
    pub auth_snapshot: AuthSnapshot,
    pub local_initialized: bool,
    pub auth_initialized: bool,
    pub pvp_initialized: bool,
}

/// How the region of the session is obtained.
pub enum RegionSource {
    /// The region cached for the current local session.
    Cached(String),
    /// No region is cached: read it from the product sessions.
    Fetch,
}

impl ValorantApi {
    /// A flag is only raised together with what it announces: the local
    /// flag with the local session, whose lockfile is the one recorded; the
    /// auth flag with the auth client; the PVP flag with the PVP client.
    pub open spec fn wf(self) -> bool {
        &&& self.local_initialized ==> self.local_session is Some
        &&& self.local_session matches Some(l) ==> l.raw == self.raw_lockfile
        &&& self.auth_initialized ==> self.has_auth_session
        &&& self.pvp_initialized ==> self.has_pvp_client
    }

    /// The state with no session at all.
    pub open spec fn is_cleared(self) -> bool {
        &&& self.raw_lockfile@.len() == 0
        &&& self.local_session is None
        &&& !self.has_auth_session
        &&& !self.has_pvp_client
        &&& self.region is None
        &&& self.auth_snapshot.is_empty()
        &&& !self.local_initialized
        &&& !self.auth_initialized
        &&& !self.pvp_initialized
    }

    /// The state before the first lockfile was seen.
    pub fn new() -> (r: ValorantApi)
        ensures
            r.wf(),
            r.is_cleared(),
    {
        ValorantApi {
            raw_lockfile: String::new(),
            local_session: None,
            has_auth_session: false,
            has_pvp_client: false,
            region: None,
            auth_snapshot: AuthSnapshot::default(),
            local_initialized: false,
            auth_initialized: false,
            pvp_initialized: false,
        }
    }

    /// Whether the PVP API can be used: the whole session is set up.
    pub fn is_initialized(&self) -> (r: bool)
        ensures
            r == self.pvp_initialized,
    {
        self.pvp_initialized
    }

    /// The Riot ID of the signed-in player.
    pub fn full_username(&self) -> (r: String)
        ensures
            r@ == riot_id(self.auth_snapshot.game_name@, self.auth_snapshot.tag_line@),
    {
        self.auth_snapshot.full_username()
    }

    /// The PUUID of the signed-in player.
    pub fn puuid(&self) -> (r: String)
        ensures
            r == self.auth_snapshot.puuid,
    {
        self.auth_snapshot.puuid.clone()
    }

    /// Whether `lockfile` differs from the one the session was built from,
    /// or `current_puuid` is not the player of the session.
    pub open spec fn refresh_needed(self, lockfile: LockfileData, current_puuid: Seq<char>) -> bool {
        !(self.raw_lockfile@ == lockfile.raw@ && self.auth_snapshot.puuid@ == current_puuid)
    }

    /// `after` is `self` with the local session of `lockfile` recorded.
    pub open spec fn with_local_session(self, after: ValorantApi, lockfile: LockfileData) -> bool {
        &&& after.wf()
        &&& after.raw_lockfile == lockfile.raw
        &&& after.local_session == Some(lockfile)
        &&& after.region is None
        &&& after.local_initialized
        &&& after.has_auth_session == self.has_auth_session
        &&& after.has_pvp_client == self.has_pvp_client
        &&& after.auth_snapshot == self.auth_snapshot
        &&& after.auth_initialized == self.auth_initialized
        &&& after.pvp_initialized == self.pvp_initialized
    }

    /// `after` is `self` once the session was forgotten: a state that is
    /// not initialized and has no lockfile stays as it is; any other is
    /// cleared.
    pub open spec fn cleared_into(self, after: ValorantApi) -> bool {
        &&& after.wf()
        &&& !self.pvp_initialized && self.raw_lockfile@.len() == 0 ==> after == self
        &&& self.pvp_initialized || self.raw_lockfile@.len() > 0 ==> after.is_cleared()
    }

    /// Whether a lockfile read now differs from the one the session was
    /// built from, or the signed-in player changed.
    pub fn needs_refresh(&self, lockfile: &LockfileData, current_puuid: &str) -> (r: bool)
        ensures
            r == self.refresh_needed(*lockfile, current_puuid@),
    {
        !(crate::text::str_eq(self.raw_lockfile.as_str(), lockfile.raw.as_str())
            && crate::text::str_eq(self.auth_snapshot.puuid.as_str(), current_puuid))
    }

    /// Records a new local session (its client was built from `lockfile`):
    /// the lockfile becomes the current one, the cached region is dropped
    /// and the local API is ready.
    pub fn set_local_session(&mut self, lockfile: LockfileData)
        requires
            old(self).wf(),
        ensures
            old(self).with_local_session(*final(self), lockfile),
    {
        self.raw_lockfile = lockfile.raw.clone();
        self.local_session = Some(lockfile);
        self.region = None;
        self.local_initialized = true;
    }

    /// Records that the auth client was built: the auth API is ready.
    pub fn set_auth_session(&mut self)
        requires
            old(self).wf(),
        ensures
            final(self).wf(),
            final(self).has_auth_session,
            final(self).auth_initialized,
            final(self).raw_lockfile == old(self).raw_lockfile,
            final(self).local_session == old(self).local_session,
            final(self).has_pvp_client == old(self).has_pvp_client,
            final(self).region == old(self).region,
            final(self).auth_snapshot == old(self).auth_snapshot,
            final(self).local_initialized == old(self).local_initialized,
            final(self).pvp_initialized == old(self).pvp_initialized,
    {
        self.has_auth_session = true;
        self.auth_initialized = true;
    }

    /// Records the tokens and identity of the session.
    pub fn set_auth_snapshot(&mut self, snapshot: AuthSnapshot)
        requires
            old(self).wf(),
        ensures
            final(self).wf(),
            final(self).auth_snapshot == snapshot,
            final(self).raw_lockfile == old(self).raw_lockfile,
            final(self).local_session == old(self).local_session,
            final(self).has_auth_session == old(self).has_auth_session,
            final(self).has_pvp_client == old(self).has_pvp_client,
            final(self).region == old(self).region,
            final(self).local_initialized == old(self).local_initialized,
            final(self).auth_initialized == old(self).auth_initialized,
            final(self).pvp_initialized == old(self).pvp_initialized,
    {
        self.auth_snapshot = snapshot;
    }

    /// Records that the PVP client was built: the session is complete.
    pub fn set_pvp_client(&mut self)
        requires
            old(self).wf(),
        ensures
            final(self).wf(),
            final(self).has_pvp_client,
            final(self).pvp_initialized,
            final(self).raw_lockfile == old(self).raw_lockfile,
            final(self).local_session == old(self).local_session,
            final(self).has_auth_session == old(self).has_auth_session,
            final(self).region == old(self).region,
            final(self).auth_snapshot == old(self).auth_snapshot,
            final(self).local_initialized == old(self).local_initialized,
            final(self).auth_initialized == old(self).auth_initialized,
    {
        self.has_pvp_client = true;
        self.pvp_initialized = true;
    }

    /// `after` is `self` with `region` cached and nothing else changed.
    pub open spec fn with_region(self, after: ValorantApi, region: String) -> bool {
        &&& after.wf()
        &&& after.region == Some(region)
        &&& after.raw_lockfile == self.raw_lockfile
        &&& after.local_session == self.local_session
        &&& after.has_auth_session == self.has_auth_session
        &&& after.has_pvp_client == self.has_pvp_client
        &&& after.auth_snapshot == self.auth_snapshot
        &&& after.local_initialized == self.local_initialized
        &&& after.auth_initialized == self.auth_initialized
        &&& after.pvp_initialized == self.pvp_initialized
    }

    /// Caches the region found for the current local session.
    pub fn cache_region(&mut self, region: String)
        requires
            old(self).wf(),
        ensures
            old(self).with_region(*final(self), region),
    {
        self.region = Some(region);
    }

    /// Where the region comes from: the cached one, or else the product
    /// sessions of the local API.
    pub open spec fn region_plan(self) -> RegionSource {
        match self.region {
            Some(r) => RegionSource::Cached(r),
            None => RegionSource::Fetch,
        }
    }

    /// Decides how to answer a request for the region: a cached region is
    /// returned as it is, without a request; otherwise it must be fetched.
    pub fn region_source(&self) -> (r: RegionSource)
        ensures
            r == self.region_plan(),
    {
        match &self.region {
            Some(region) => RegionSource::Cached(region.clone()),
            None => RegionSource::Fetch,
        }
    }

    /// Forgets the session once the lockfile is gone, so that no stale
    /// client or token is used; a state that is not initialized and has
    /// no lockfile is left as it is.
    pub fn clear_session_state(&mut self)
        requires
            old(self).wf(),
        ensures
            old(self).cleared_into(*final(self)),
    {
        if !self.is_initialized() && self.raw_lockfile.as_str().is_empty() {
            return;
        }
        self.raw_lockfile = String::new();
        self.local_session = None;
        self.has_auth_session = false;
        self.has_pvp_client = false;
        self.region = None;
        self.auth_snapshot = AuthSnapshot::default();
        self.local_initialized = false;
        self.auth_initialized = false;
        self.pvp_initialized = false;
    }
}

/// Forgetting the session twice is forgetting it once.
pub proof fn law_clear_idempotent(s0: ValorantApi, s1: ValorantApi, s2: ValorantApi)
    requires
        s0.wf(),
        s0.cleared_into(s1),
        s1.cleared_into(s2),
    ensures
        s2 == s1,
{
}

/// Once the session was forgotten, it is not initialized and holds no
/// lockfile, token or client.
pub proof fn law_cleared_is_uninitialized(s0: ValorantApi, s1: ValorantApi)
    requires
        s0.wf(),
        s0.cleared_into(s1),
    ensures
        !s1.pvp_initialized,
        s1.raw_lockfile@.len() == 0,
        s0.pvp_initialized ==> s1.is_cleared(),
{
}

/// Right after the local session of a lockfile was recorded, reading the
/// same lockfile with the same player asks for no refresh.
pub proof fn law_no_refresh_after_local_session(
    s0: ValorantApi,
    s1: ValorantApi,
    lockfile: LockfileData,
    puuid: Seq<char>,
)
    requires
        s0.wf(),
        s0.with_local_session(s1, lockfile),
        puuid == s0.auth_snapshot.puuid@,
    ensures
        !s1.refresh_needed(lockfile, puuid),
{
}

/// A region that was cached is answered from the cache, with no request,
/// for as long as the local session stays the same.
pub proof fn law_cached_region_is_reused(s0: ValorantApi, s1: ValorantApi, region: String)
    requires
        s0.wf(),
        s0.with_region(s1, region),
    ensures
        s1.region_plan() == RegionSource::Cached(region),
{
}

/// A new local session drops the cached region, so the region of the new
/// session is fetched.
pub proof fn law_new_local_session_fetches_region(s0: ValorantApi, s1: ValorantApi, lockfile: LockfileData)
    requires
        s0.wf(),
        s0.with_local_session(s1, lockfile),
    ensures
        s1.region_plan() == RegionSource::Fetch,
{
}

} // verus!
