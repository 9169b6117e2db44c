//! The client of valorant-api.com: an answer with an error status is a
//! failure that carries the status.
use vstd::prelude::*;

use crate::riot_api::response::RequestError;
use crate::riot_api::shared::is_success;

verus! {

/// The client of valorant-api.com; it holds no state of its own.
pub struct AssetClient;

impl AssetClient {
    /// Checks the status of an answer.
    pub fn check_status(status: u16) -> (r: Result<(), RequestError>)
        ensures
            is_success(status) ==> r is Ok,
            !is_success(status) ==> r == Err::<(), RequestError>(RequestError::FailedWithStatus(status)),
    {
        if 200 <= status && status <= 299 {
            Ok(())
        } else {
            Err(RequestError::FailedWithStatus(status))
        }
    }
}

} // verus!
