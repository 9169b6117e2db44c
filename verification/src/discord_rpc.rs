//! Discord Rich Presence: what an activity request asks for, before the
//! Discord client is reached.
use vstd::prelude::*;

use crate::errors::{invalid_response, AppError, AppResult};
use crate::text::{chars_of, concat2, string_of, trim, trim_str};

verus! {

/// What the front end asks to show: the Discord application id and the
/// two lines of the activity.
#[derive(Debug, Clone, PartialEq, Eq)]
pub struct DiscordRpcActivityInput {
    pub client_id: String,
    pub details: Option<String>,
    pub state: Option<String>,
}

/// The activity to show, with the application id it is shown for.
#[derive(Debug, Clone, PartialEq, Eq)]
pub struct ActivityPlan {
    pub client_id: String,
    pub details: String,
    pub state: String,
}

/// Checks an activity request: the application id, trimmed, must not be
/// empty; missing lines default to `Tracking VALORANT` and `ValMonitor`.
pub fn plan_activity(input: DiscordRpcActivityInput) -> (r: AppResult<ActivityPlan>)
    ensures
        trim(input.client_id@).len() == 0 ==> (r matches Err(e) && (e matches AppError::InvalidResponse(m)
            && m@ == "Discord RPC client id is missing"@)),
        trim(input.client_id@).len() > 0 ==> (r matches Ok(p) && {
            &&& p.client_id@ == trim(input.client_id@)
            &&& p.details@ == match input.details {
                Some(d) => d@,
                None => "Tracking VALORANT"@,
            }
            &&& p.state@ == match input.state {
                Some(s) => s@,
                None => "ValMonitor"@,
            }
        }),
{
    let id = trim_str(input.client_id.as_str());
    if id.len() == 0 {
        return Err(invalid_response("Discord RPC client id is missing"));
    }
    let details = match input.details {
        Some(d) => d,
        None => "Tracking VALORANT".to_owned(),
    };
    let state = match input.state {
        Some(s) => s,
        None => "ValMonitor".to_owned(),
    };
    Ok(ActivityPlan { client_id: string_of(&id), details, state })
}

/// The error reported for a failure of the Discord client, from its message.
pub fn discord_error(message: &str) -> (r: AppError)
    ensures
        r matches AppError::InvalidResponse(m) && m@ == "Discord RPC failed: "@ + message@,
{
    AppError::InvalidResponse(concat2("Discord RPC failed: ", message))
}

} // verus!
