//! What the API clients share: the player, the tokens, and the flag by
//! which a client that saw a failed request asks for all clients to be
//! rebuilt.
use vstd::prelude::*;

use crate::riot_api::data::{AuthToken, UserData};
use crate::riot_api::response::{unknown, RequestError};

verus! {

/// The shared state of the API clients.
pub struct SharedGameData {
    pub user_data: UserData,
    pub auth_data: AuthToken,
    pub need_reset: bool,
}

impl SharedGameData {
    /// Nothing known yet, and no reset asked for.
    pub fn new() -> (r: SharedGameData)
        ensures
            r.user_data.is_empty(),
            r.auth_data.is_empty(),
            !r.need_reset,
    {
        SharedGameData { user_data: UserData::default(), auth_data: AuthToken::default(), need_reset: false }
    }

    /// The tokens and lockfile credentials.
    pub fn get_auth(&self) -> (r: &AuthToken)
        ensures
            *r == self.auth_data,
    {
        &self.auth_data
    }

    /// The signed-in player.
    pub fn get_user(&self) -> (r: &UserData)
        ensures
            *r == self.user_data,
    {
        &self.user_data
    }

    /// Whether a rebuild of the clients was asked for.
    pub fn should_reset(&self) -> (r: bool)
        ensures
            r == self.need_reset,
    {
        self.need_reset
    }

    /// Asks for a rebuild of the clients, or reports that it was done.
    pub fn order_reset(&mut self, state: bool)
        ensures
            final(self).need_reset == state,
            final(self).user_data == old(self).user_data,
            final(self).auth_data == old(self).auth_data,
    {
        self.need_reset = state;
    }

    /// The region of the signed-in player.
    pub fn get_region(&self) -> (r: String)
        ensures
            r == self.user_data.region,
    {
        self.user_data.region.clone()
    }
}

/// Whether an HTTP status is a success (2xx).
pub open spec fn is_success(status: u16) -> bool {
    200 <= status <= 299
}

/// What follows an answer of the Local, PVP or GLZ API.
pub enum SendStep {
    /// The answer is handed to the caller.
    Deliver,
    /// A reset of the clients was asked for: wait until it is done, then
    /// this many seconds, and send again.
    RetryAfterReset { wait_secs: u64 },
    /// The request fails with this error.
    Fail(RequestError),
}

/// Whether a request must wait for a pending reset before it is sent.
pub fn must_wait_for_reset(shared: &SharedGameData, skip_reset_check: bool) -> (r: bool)
    ensures
        r == (!skip_reset_check && shared.need_reset),
{
    !skip_reset_check && shared.should_reset()
}

/// Decides on an answer of the Local, PVP or GLZ API. An error status asks for a reset
/// of the clients; a request that checks for resets then waits for it and
/// retries after three seconds, one that skips the check fails.
pub fn send_step(shared: &mut SharedGameData, status: u16, skip_reset_check: bool) -> (r: SendStep)
    ensures
        is_success(status) ==> r is Deliver && *final(shared) == *old(shared),
        !is_success(status) ==> final(shared).need_reset && final(shared).user_data == old(
            shared,
        ).user_data && final(shared).auth_data == old(shared).auth_data,
        !is_success(status) && !skip_reset_check ==> r == (SendStep::RetryAfterReset { wait_secs: 3 }),
        !is_success(status) && skip_reset_check ==> (r matches SendStep::Fail(e) && (e matches RequestError::Unknown(
            m,
        ) && m@ == "Failed to send request"@)),
{
    if 200 <= status && status <= 299 {
        return SendStep::Deliver;
    }
    shared.order_reset(true);
    if !skip_reset_check {
        SendStep::RetryAfterReset { wait_secs: 3 }
    } else {
        SendStep::Fail(unknown("Failed to send request"))
    }
}

/// After a request: any failure asks for a reset of the clients.
pub fn finish_send(shared: &mut SharedGameData, failed: bool)
    ensures
        failed ==> final(shared).need_reset,
        !failed ==> *final(shared) == *old(shared),
        final(shared).user_data == old(shared).user_data,
        final(shared).auth_data == old(shared).auth_data,
{
    if failed {
        shared.order_reset(true);
    }
}

} // verus!
