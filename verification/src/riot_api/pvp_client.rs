//! The client of the PVP and GLZ APIs: the shard of a region, the address
//! of a request, the limit on attempts and the headers it is built with.
use vstd::prelude::*;

use crate::codec::{is_visible_ascii, lemma_base64_visible};
use crate::riot::auth::bearer_value;
use crate::riot::pvp::RIOT_CLIENT_PLATFORM;
use crate::riot::response::{header_value_ok, lemma_visible_header_ok};
use crate::riot_api::data::AuthToken;
use crate::riot_api::response::{unknown, RequestError};
use crate::text::{concat2, concat3, str_eq};

verus! {

/// The GLZ shard that serves a region.
pub open spec fn shard_of(region: Seq<char>) -> Option<Seq<char>> {
    if region == "ap"@ {
        Some("ap"@)
    } else if region == "kr"@ {
        Some("kr"@)
    } else if region == "latam"@ {
        Some("na"@)
    } else if region == "br"@ {
        Some("na"@)
    } else if region == "na"@ {
        Some("na"@)
    } else if region == "eu"@ {
        Some("eu"@)
    } else {
        None
    }
}

/// The GLZ shard that serves a region, if the region is known.
pub fn shard(region: &str) -> (r: Option<String>)
    ensures
        shard_of(region@) matches Some(s) ==> (r matches Some(t) && t@ == s),
        shard_of(region@) is None ==> r is None,
{
    if str_eq(region, "ap") {
        Some("ap".to_owned())
    } else if str_eq(region, "kr") {
        Some("kr".to_owned())
    } else if str_eq(region, "latam") {
        Some("na".to_owned())
    } else if str_eq(region, "br") {
        Some("na".to_owned())
    } else if str_eq(region, "na") {
        Some("na".to_owned())
    } else if str_eq(region, "eu") {
        Some("eu".to_owned())
    } else {
        None
    }
}

/// A region with a GLZ shard of its own is served by that shard: `ap`,
/// `kr`, `na` and `eu` map to themselves. Only `latam` and `br` are served
/// by another shard, `na`; every other region has none. So a GLZ request of
/// such a region goes to `glz-<region>-1.<region>`.
pub proof fn law_shard_is_own_region(region: Seq<char>, path: Seq<char>)
    ensures
        region == "ap"@ || region == "kr"@ || region == "na"@ || region == "eu"@ ==> shard_of(region)
            == Some(region) && pvp_request_url(region, path, true) == "https://glz-"@ + region + "-1."@
            + region + ".a.pvp.net"@ + path,
        region == "latam"@ || region == "br"@ ==> shard_of(region) == Some("na"@),
        shard_of(region) matches Some(s) ==> s == region || ((region == "latam"@ || region == "br"@)
            && s == "na"@),
        !(region == "ap"@ || region == "kr"@ || region == "na"@ || region == "eu"@ || region == "latam"@
            || region == "br"@) ==> shard_of(region) is None,
{
    reveal_strlit("ap");
    reveal_strlit("kr");
    reveal_strlit("na");
    reveal_strlit("eu");
    reveal_strlit("latam");
    reveal_strlit("br");
    reveal_strlit("https://glz-");
    reveal_strlit("-1.");
    reveal_strlit(".a.pvp.net");
    reveal_strlit("https://");
    reveal_strlit("glz-");
    assert("br"@[0] != "ap"@[0] && "br"@[0] != "kr"@[0]);
    assert("kr"@[0] != "ap"@[0]);
    assert("na"@[0] != "ap"@[0] && "na"@[0] != "kr"@[0] && "na"@[0] != "br"@[0]);
    assert("eu"@[0] != "ap"@[0] && "eu"@[0] != "kr"@[0] && "eu"@[0] != "br"@[0] && "eu"@[0] != "na"@[0]);
    assert("latam"@.len() != "ap"@.len());
    if region == "ap"@ || region == "kr"@ || region == "na"@ || region == "eu"@ {
        assert(pvp_request_url(region, path, true) =~= "https://glz-"@ + region + "-1."@ + region
            + ".a.pvp.net"@ + path);
    }
}

/// The address of a request: on the GLZ API `glz-<shard>-1.<region>`, on
/// the PVP API `pd.<region>`, under `.a.pvp.net`.
pub open spec fn pvp_request_url(region: Seq<char>, path: Seq<char>, use_glz: bool) -> Seq<char> {
    let host = if use_glz {
        "glz-"@ + shard_of(region)->Some_0 + "-1."@ + region
    } else {
        "pd."@ + region
    };
    "https://"@ + host + ".a.pvp.net"@ + path
}

/// The address of a request; a GLZ request needs a region with a shard.
pub fn request_url(region: &str, path: &str, use_glz: bool) -> (r: String)
    requires
        use_glz ==> shard_of(region@) is Some,
    ensures
        r@ == pvp_request_url(region@, path@, use_glz),
{
    let host = if use_glz {
        let s = match shard(region) {
            Some(s) => s,
            None => String::new(),
        };
        let head = concat3("glz-", s.as_str(), "-1.");
        concat2(head.as_str(), region)
    } else {
        concat2("pd.", region)
    };
    let start = concat3("https://", host.as_str(), ".a.pvp.net");
    concat2(start.as_str(), path)
}

/// The number of the next attempt of a request, of at most three.
pub fn next_attempt(attempts: u32) -> (r: Result<u32, RequestError>)
    ensures
        attempts < 3 ==> r == Ok::<u32, RequestError>((attempts + 1) as u32),
        attempts >= 3 ==> (r matches Err(e) && (e matches RequestError::Unknown(m) && m@
            == "Max retries exceeded"@)),
{
    if attempts >= 3 {
        Err(unknown("Max retries exceeded"))
    } else {
        Ok(attempts + 1)
    }
}

/// The headers of the PVP and GLZ APIs, in the order they are set.
pub open spec fn pvp_client_header_pairs(auth: AuthToken, version: Seq<char>) -> Seq<(Seq<char>, Seq<char>)> {
    seq![
        ("Authorization"@, bearer_value(auth.access_token@)),
        ("X-Riot-Entitlements-JWT"@, auth.entitlements_token@),
        ("X-Riot-ClientPlatform"@, RIOT_CLIENT_PLATFORM@),
        ("X-Riot-ClientVersion"@, version),
    ]
}

/// The platform header value is always a valid header value.
pub proof fn lemma_platform_header_ok()
    ensures
        header_value_ok(RIOT_CLIENT_PLATFORM@),
{
    reveal_strlit(
        "ew0KCSJwbGF0Zm9ybVR5cGUiOiAiUEMiLA0KCSJwbGF0Zm9ybU9TIjogIldpbmRvd3MiLA0KCSJwbGF0Zm9ybU9TVmVyc2lvbiI6ICIxMC4wLjE5MDQyLjEuMjU2LjY0Yml0IiwNCgkicGxhdGZvcm1DaGlwc2V0IjogIlVua25vd24iDQp9",
    );
    assert(is_visible_ascii(RIOT_CLIENT_PLATFORM@));
    lemma_visible_header_ok(RIOT_CLIENT_PLATFORM@);
}

/// The headers the PVP client is built with, from the tokens and the
/// client version that valorant-api.com reported; the tokens and the
/// version must be valid header values.
pub fn pvp_client_headers(auth: &AuthToken, version: Result<String, RequestError>) -> (r: Result<
    Vec<(String, String)>,
    RequestError,
>)
    requires
        version matches Ok(v) ==> header_value_ok(bearer_value(auth.access_token@)) && header_value_ok(
            auth.entitlements_token@,
        ) && header_value_ok(v@),
    ensures
        version matches Err(e) ==> r == Err::<Vec<(String, String)>, RequestError>(e),
        version matches Ok(v) ==> (r matches Ok(h) && h@.len() == 4 && forall|i: int|
            0 <= i < 4 ==> (#[trigger] h@[i]).0@ == pvp_client_header_pairs(*auth, v@)[i].0 && h@[i].1@
                == pvp_client_header_pairs(*auth, v@)[i].1 && header_value_ok(h@[i].1@)),
{
    let version = match version {
        Ok(v) => v,
        Err(e) => {
            return Err(e);
        },
    };
    proof {
        lemma_platform_header_ok();
    }
    let ghost pairs = pvp_client_header_pairs(*auth, version@);
    let mut out: Vec<(String, String)> = Vec::new();
    out.push(("Authorization".to_owned(), concat2("Bearer ", auth.access_token.as_str())));
    out.push(("X-Riot-Entitlements-JWT".to_owned(), auth.entitlements_token.clone()));
    out.push(("X-Riot-ClientPlatform".to_owned(), RIOT_CLIENT_PLATFORM.to_owned()));
    out.push(("X-Riot-ClientVersion".to_owned(), version));
    assert(forall|i: int| 0 <= i < 4 ==> #[trigger] out@[i].1@ == pairs[i].1);
    Ok(out)
}

} // verus!
