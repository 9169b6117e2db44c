//! Region detection from the product sessions of the Riot Client.
use vstd::prelude::*;

use crate::errors::{invalid_response, session_not_ready, AppError, AppResult};
use crate::json::JsonValue;
use crate::models::lockfile::{basic_authorization, LockfileData};
use crate::models::presence::ExternalSession;
use crate::riot::response::{checked_header, law_basic_authorization_is_valid_header};
use crate::text::{chars_of, concat3, split_char, split_chars, starts_with, starts_with_str, str_eq, string_of};

verus! {

/// Whether a launch argument names the deployment (and so the region):
/// `-ares-deployment=` or `ares-deployment=` followed by the region.
pub open spec fn is_region_argument(arg: Seq<char>) -> bool {
    starts_with(arg, "-ares-deployment="@) || starts_with(arg, "ares-deployment="@)
}

/// Whether a product session carries a region argument: its
/// `launchConfiguration.arguments` is an array with a string element that
/// is a region argument.
pub open spec fn session_has_region(value: JsonValue) -> bool {
    value.at("launchConfiguration"@).at("arguments"@) matches JsonValue::Array(args) && exists|i: int|
        0 <= i < args@.len() && (#[trigger] args@[i] matches JsonValue::Str(s) && is_region_argument(s@))
}

/// The first product session, in the given order, that is not the host
/// app and carries a region argument.
pub open spec fn first_region_session(sessions: Seq<(String, JsonValue)>) -> Option<int>
    decreases sessions.len(),
{
    if sessions.len() == 0 {
        None
    } else if sessions[0].0@ != "host_app"@ && session_has_region(sessions[0].1) {
        Some(0)
    } else {
        match first_region_session(sessions.drop_first()) {
            Some(i) => Some(i + 1),
            None => None,
        }
    }
}

/// The region an argument names: what follows its first `=`, up to a
/// second `=` if there is one (`split('=').nth(1)`).
pub open spec fn region_of_argument(arg: Seq<char>) -> Option<Seq<char>> {
    if split_char(arg, '=').len() >= 2 {
        Some(split_char(arg, '=')[1])
    } else {
        None
    }
}

/// Index of the first region argument.
pub open spec fn first_region_argument(args: Seq<String>) -> Option<int>
    decreases args.len(),
{
    if args.len() == 0 {
        None
    } else if is_region_argument(args[0]@) {
        Some(0)
    } else {
        match first_region_argument(args.drop_first()) {
            Some(i) => Some(i + 1),
            None => None,
        }
    }
}

/// The argument the region is read from: the first region argument, or
/// else the fifth argument.
pub open spec fn region_argument(args: Seq<String>) -> Option<Seq<char>> {
    match first_region_argument(args) {
        Some(i) => Some(args[i]@),
        None => if args.len() > 4 {
            Some(args[4]@)
        } else {
            None
        },
    }
}

/// Whether a launch argument names the deployment.
pub fn is_region_arg(arg: &str) -> (r: bool)
    ensures
        r == is_region_argument(arg@),
{
    let cs = chars_of(arg);
    starts_with_str(&cs, "-ares-deployment=") || starts_with_str(&cs, "ares-deployment=")
}

/// Whether a product session carries a region argument.
pub fn has_region_argument(value: &JsonValue) -> (r: bool)
    ensures
        r == session_has_region(*value),
{
    let args = value.index("launchConfiguration").index("arguments");
    match args.as_array() {
        Some(a) => {
            let mut i: usize = 0;
            while i < a.len()
                invariant
                    i <= a.len(),
                    *args == JsonValue::Array(*a),
                    *args == value.at("launchConfiguration"@).at("arguments"@),
                    forall|m: int|
                        0 <= m < i ==> !(#[trigger] a@[m] matches JsonValue::Str(s) && is_region_argument(
                            s@,
                        )),
                decreases a.len() - i,
            {
                match a[i].as_str() {
                    Some(s) => {
                        if is_region_arg(s) {
                            assert(a@[i as int] matches JsonValue::Str(t) && is_region_argument(t@));
                            return true;
                        }
                    },
                    None => {},
                }
                i += 1;
            }
            false
        },
        None => false,
    }
}

/// Picks the product session the region is read from; the sessions come in
/// the order the Riot Client's answer was walked in.
pub fn select_region_session(sessions: Vec<(String, JsonValue)>) -> (r: AppResult<JsonValue>)
    ensures
        first_region_session(sessions@) matches Some(i) ==> r == Ok::<JsonValue, AppError>(
            sessions@[i].1,
        ),
        first_region_session(sessions@) is None ==> (r matches Err(e) && (e matches AppError::RiotSessionNotReady(m)
            && m@ == "Valorant external session with region was not found"@)),
{
    let ghost all = sessions@;
    let mut rest = sessions;
    let mut i: usize = 0;
    assert(all.skip(0) =~= all);
    while i < rest.len()
        invariant
            i <= rest.len(),
            rest@ == all,
            sessions@ == all,
            first_region_session(all) == match first_region_session(all.skip(i as int)) {
                Some(j) => Some(j + i),
                None => None,
            },
        decreases rest.len() - i,
    {
        assert(all.skip(i as int)[0] == all[i as int]);
        if !str_eq(rest[i].0.as_str(), "host_app") && has_region_argument(&rest[i].1) {
            assert(first_region_session(all.skip(i as int)) == Some(0int));
            let (_, value) = rest.remove(i);
            assert(value == all[i as int].1);
            return Ok(value);
        }
        assert(all.skip(i as int).drop_first() =~= all.skip(i + 1));
        i += 1;
    }
    Err(session_not_ready("Valorant external session with region was not found"))
}

proof fn lemma_first_region_argument_at(args: Seq<String>, i: int)
    requires
        0 <= i < args.len(),
        is_region_argument(args[i]@),
        forall|j: int| 0 <= j < i ==> !is_region_argument(#[trigger] args[j]@),
    ensures
        first_region_argument(args) == Some(i),
    decreases i,
{
    if i > 0 {
        assert forall|j: int| 0 <= j < i - 1 implies !is_region_argument(#[trigger] args.drop_first()[j]@) by {
            assert(args.drop_first()[j] == args[j + 1]);
        }
        assert(args.drop_first()[i - 1] == args[i]);
        lemma_first_region_argument_at(args.drop_first(), i - 1);
    }
}

proof fn lemma_no_region_argument(args: Seq<String>)
    requires
        forall|j: int| 0 <= j < args.len() ==> !is_region_argument(#[trigger] args[j]@),
    ensures
        first_region_argument(args) is None,
    decreases args.len(),
{
    if args.len() > 0 {
        assert forall|j: int| 0 <= j < args.len() - 1 implies !is_region_argument(
            #[trigger] args.drop_first()[j]@,
        ) by {
            assert(args.drop_first()[j] == args[j + 1]);
        }
        lemma_no_region_argument(args.drop_first());
    }
}

/// The region is read from the first launch argument that starts with
/// `-ares-deployment=` or `ares-deployment=`, wherever it stands and however
/// many arguments there are; only when no argument starts so is the fifth
/// argument read, and with fewer than five there is none.
pub proof fn law_region_from_first_deployment_argument(args: Seq<String>, i: int)
    ensures
        0 <= i < args.len() && (starts_with(args[i]@, "-ares-deployment="@) || starts_with(
            args[i]@,
            "ares-deployment="@,
        )) && (forall|j: int|
            0 <= j < i ==> !starts_with(#[trigger] args[j]@, "-ares-deployment="@) && !starts_with(
                args[j]@,
                "ares-deployment="@,
            )) ==> region_argument(args) == Some(args[i]@),
        (forall|j: int|
            0 <= j < args.len() ==> !starts_with(#[trigger] args[j]@, "-ares-deployment="@) && !starts_with(
                args[j]@,
                "ares-deployment="@,
            )) ==> region_argument(args) == if args.len() > 4 {
            Some(args[4]@)
        } else {
            None
        },
{
    if 0 <= i < args.len() && is_region_argument(args[i]@) && (forall|j: int|
        0 <= j < i ==> !is_region_argument(#[trigger] args[j]@)) {
        lemma_first_region_argument_at(args, i);
    }
    if forall|j: int| 0 <= j < args.len() ==> !is_region_argument(#[trigger] args[j]@) {
        lemma_no_region_argument(args);
    }
}

/// Index of the first region argument.
pub fn find_region_argument(args: &Vec<String>) -> (r: Option<usize>)
    ensures
        r matches Some(i) ==> first_region_argument(args@) == Some(i as int) && i < args@.len(),
        r is None ==> first_region_argument(args@) is None,
{
    let ghost all = args@;
    let mut i: usize = 0;
    assert(all.skip(0) =~= all);
    while i < args.len()
        invariant
            i <= args.len(),
            args@ == all,
            first_region_argument(all) == match first_region_argument(all.skip(i as int)) {
                Some(j) => Some(j + i),
                None => None,
            },
        decreases args.len() - i,
    {
        assert(all.skip(i as int)[0] == all[i as int]);
        if is_region_arg(args[i].as_str()) {
            return Some(i);
        }
        assert(all.skip(i as int).drop_first() =~= all.skip(i + 1));
        i += 1;
    }
    assert(all.skip(i as int).len() == 0);
    None
}

/// The region named by a product session's launch arguments.
pub fn extract_region(session: ExternalSession) -> (r: AppResult<String>)
    ensures
        region_argument(session.launch_configuration.arguments@) is None ==> (r matches Err(e)
            && (e matches AppError::InvalidResponse(m) && m@ == "region argument not found"@)),
        region_argument(session.launch_configuration.arguments@) matches Some(arg) ==> match region_of_argument(arg) {
            Some(region) => r matches Ok(s) && s@ == region,
            None => (r matches Err(e) && (e matches AppError::InvalidResponse(m) && m@
                == "invalid region format"@)),
        },
{
    let args = &session.launch_configuration.arguments;
    let index = match find_region_argument(args) {
        Some(j) => j,
        None => {
            if args.len() > 4 {
                4
            } else {
                return Err(invalid_response("region argument not found"));
            }
        },
    };
    let cs = chars_of(args[index].as_str());
    let parts = split_chars(&cs, '=');
    if parts.len() >= 2 {
        Ok(string_of(&parts[1]))
    } else {
        Err(invalid_response("invalid region format"))
    }
}

/// The address of `path` on the Riot Local API, served on `127.0.0.1` at
/// the port of the lockfile.
pub fn local_url(port: &str, path: &str) -> (r: String)
    ensures
        r@ == "https://127.0.0.1:"@ + port@ + path@,
{
    concat3("https://127.0.0.1:", port, path)
}

/// The `Authorization` header of the Riot Local API for a lockfile.
pub fn local_authorization(lockfile: &LockfileData) -> (r: AppResult<(String, String)>)
    ensures
        r matches Ok(h) && h.0@ == "Authorization"@ && h.1@ == basic_authorization(lockfile.password@),
{
    proof {
        law_basic_authorization_is_valid_header(lockfile.password@);
    }
    checked_header("Authorization", lockfile.authorization_header())
}

} // verus!
