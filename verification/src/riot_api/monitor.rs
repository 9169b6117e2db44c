//! The lockfile monitor of the API clients: whether a lockfile read asks
//! for the clients to be rebuilt.
use vstd::prelude::*;

use crate::riot_api::shared::SharedGameData;
use crate::text::str_eq;

verus! {

/// What the monitor does after reading the lockfile.
#[derive(Debug, Clone, Copy, PartialEq, Eq)]
pub struct LockfileCheck {
    /// Rebuild the clients.
    pub rebuild: bool,
    /// The rebuild answers a failed request (a reset), not a new lockfile;
    /// it is not announced.
    pub after_failure: bool,
}

/// The decision on a lockfile read, and the last lockfile recorded after it.
pub open spec fn lockfile_checked(
    need_reset: bool,
    before: String,
    content: String,
    after: String,
    r: LockfileCheck,
) -> bool {
    if need_reset {
        r == (LockfileCheck { rebuild: true, after_failure: true }) && after == before
    } else if content@ != before@ {
        r == (LockfileCheck { rebuild: true, after_failure: false }) && after == content
    } else {
        r == (LockfileCheck { rebuild: false, after_failure: false }) && after == before
    }
}

/// Decides on a lockfile read: a pending reset asks for a rebuild; else a
/// lockfile that differs from the last one seen is recorded and asks for
/// one; an unchanged lockfile asks for nothing.
pub fn check_lockfile(shared: &SharedGameData, last_lockfile: &mut String, content: String) -> (r: LockfileCheck)
    ensures
        lockfile_checked(shared.need_reset, *old(last_lockfile), content, *final(last_lockfile), r),
{
    if shared.should_reset() {
        return LockfileCheck { rebuild: true, after_failure: true };
    }
    if !str_eq(content.as_str(), last_lockfile.as_str()) {
        *last_lockfile = content;
        LockfileCheck { rebuild: true, after_failure: false }
    } else {
        LockfileCheck { rebuild: false, after_failure: false }
    }
}

/// Whether the Henrik client is to be rebuilt: the key in its file is not
/// the one it was built with.
pub fn henrik_key_changed(current: &str, read: &str) -> (r: bool)
    ensures
        r == (current@ != read@),
{
    !str_eq(current, read)
}

/// After the clients were rebuilt the reset is done.
pub fn finish_rebuild(shared: &mut SharedGameData)
    ensures
        !final(shared).need_reset,
        final(shared).user_data == old(shared).user_data,
        final(shared).auth_data == old(shared).auth_data,
{
    shared.order_reset(false);
}

/// Once a lockfile was seen, reading it again asks for no rebuild unless
/// a reset is pending.
pub proof fn law_same_lockfile_rebuilds_once(
    before: String,
    content: String,
    middle: String,
    after: String,
    first: LockfileCheck,
    second: LockfileCheck,
)
    requires
        lockfile_checked(false, before, content, middle, first),
        lockfile_checked(false, middle, content, after, second),
    ensures
        !second.rebuild,
        after == middle,
        first.rebuild <==> content@ != before@,
{
}

} // verus!
