//! Henrik request planning and response handling.
use vstd::prelude::*;
use vstd::utf8::encode_utf8;

use crate::codec::{check_header_value, header_byte_ok};
use crate::errors::{AppError, AppResult};
use crate::json::{entries_insert, json_text_parse, parse_json, JsonValue};
use crate::string_map::{keys_ascending, lemma_lookup_ascending, lex_lt, lookup, StringMap};
use crate::text::{
    chars_of, percent_encode, push_all, push_str, string_of, take_chars, take_first, trim,
    trim_chars, trim_end_char, trim_end_matching, trim_start_char, trim_start_matching, url_encode,
};

use super::settings::{HenrikAuthMode, HenrikSettings};

verus! {

/// The percent-encoding of the UTF-8 bytes of `s`.
pub open spec fn encoded(s: Seq<char>) -> Seq<char> {
    percent_encode(encode_utf8(s))
}

/// A value as it stands in a URL path segment or query.
pub fn segment(value: &str) -> (r: String)
    ensures
        r@ == encoded(value@),
{
    url_encode(value)
}

/// A query parameter given to `query`: its key and its optional value.
pub open spec fn param_model(p: (&str, Option<String>)) -> (Seq<char>, Option<Seq<char>>) {
    (
        p.0@,
        match p.1 {
            Some(v) => Some(v@),
            None => None,
        },
    )
}

/// The value `query` keeps for key `k`: that of the last parameter with this
/// key whose value is present and not empty.
pub open spec fn query_lookup(params: Seq<(Seq<char>, Option<Seq<char>>)>, k: Seq<char>) -> Option<
    Seq<char>,
>
    decreases params.len(),
{
    if params.len() == 0 {
        None
    } else {
        let last = params.last();
        if last.0 == k && (last.1 matches Some(v) && v.len() > 0) {
            last.1
        } else {
            query_lookup(params.drop_last(), k)
        }
    }
}

/// The query of a request: the parameters with a present, non-empty value,
/// in ascending key order.
pub fn query(params: Vec<(&str, Option<String>)>) -> (r: StringMap)
    ensures
        r.wf(),
        forall|k: Seq<char>| #[trigger]
            r.get_spec(k) == query_lookup(params@.map_values(|p| param_model(p)), k),
{
    let ghost model = params@.map_values(|p: (&str, Option<String>)| param_model(p));
    let mut map = StringMap::new();
    let mut i: usize = 0;
    while i < params.len()
        invariant
            i <= params.len(),
            map.wf(),
            model == params@.map_values(|p: (&str, Option<String>)| param_model(p)),
            forall|k: Seq<char>| #[trigger]
                map.get_spec(k) == query_lookup(model.take(i as int), k),
        decreases params.len() - i,
    {
        let key: &str = params[i].0;
        let ghost before = map;
        match &params[i].1 {
            Some(v) => {
                if !v.as_str().is_empty() {
                    let kc = chars_of(key);
                    map.insert(string_of(&kc), v.clone());
                }
            },
            None => {},
        }
        proof {
            assert(model.take(i + 1).drop_last() =~= model.take(i as int));
            assert(model.take(i + 1).last() == model[i as int]);
            assert forall|k: Seq<char>| #[trigger]
                map.get_spec(k) == query_lookup(model.take(i + 1), k) by {
                assert(map.get_spec(k) == query_lookup(model.take(i + 1), k));
            }
        }
        i += 1;
    }
    assert(model.take(params@.len() as int) =~= model);
    map
}

/// The parameters that hand the entries of a query back to `query`: each
/// key with its value present.
pub open spec fn entry_params(e: Seq<(String, String)>) -> Seq<(Seq<char>, Option<Seq<char>>)> {
    e.map_values(|p: (String, String)| (p.0@, Some(p.1@)))
}

proof fn lemma_query_lookup_not_empty(params: Seq<(Seq<char>, Option<Seq<char>>)>, k: Seq<char>)
    ensures
        query_lookup(params, k) matches Some(v) ==> v.len() > 0,
    decreases params.len(),
{
    if params.len() > 0 {
        lemma_query_lookup_not_empty(params.drop_last(), k);
    }
}

proof fn lemma_entry_params_lookup(e: Seq<(String, String)>, k: Seq<char>)
    requires
        keys_ascending(e),
        forall|i: int| 0 <= i < e.len() ==> (#[trigger] e[i]).1@.len() > 0,
    ensures
        query_lookup(entry_params(e), k) == lookup(e, k),
    decreases e.len(),
{
    if e.len() > 0 {
        let n = e.len() - 1;
        let d = e.drop_last();
        assert(entry_params(e).drop_last() =~= entry_params(d));
        assert(entry_params(e).last() == (e[n].0@, Some(e[n].1@)));
        assert forall|i: int, j: int| 0 <= i < j < d.len() implies lex_lt(
            #[trigger] d[i].0@,
            #[trigger] d[j].0@,
        ) by {
            assert(d[i] == e[i] && d[j] == e[j]);
        }
        assert forall|i: int| 0 <= i < d.len() implies (#[trigger] d[i]).1@.len() > 0 by {
            assert(d[i] == e[i]);
        }
        lemma_entry_params_lookup(d, k);
        lemma_lookup_ascending(e, k);
        lemma_lookup_ascending(d, k);
        if e[n].0@ != k {
            if exists|i: int| 0 <= i < d.len() && #[trigger] d[i].0@ == k {
                let i = choose|i: int| 0 <= i < d.len() && #[trigger] d[i].0@ == k;
                assert(e[i] == d[i]);
            } else {
                assert forall|i: int| 0 <= i < e.len() implies #[trigger] e[i].0@ != k by {
                    if i < n {
                        assert(e[i] == d[i]);
                    }
                }
            }
        }
    }
}

/// Querying the entries of a query again gives back the same query: every
/// key answers as before.
pub proof fn law_query_of_query(m: StringMap, params: Seq<(Seq<char>, Option<Seq<char>>)>)
    requires
        m.wf(),
        forall|k: Seq<char>| #[trigger] m.get_spec(k) == query_lookup(params, k),
    ensures
        forall|k: Seq<char>| #[trigger] query_lookup(entry_params(m.entries@), k) == m.get_spec(k),
{
    let e = m.entries@;
    assert forall|i: int| 0 <= i < e.len() implies (#[trigger] e[i]).1@.len() > 0 by {
        lemma_lookup_ascending(e, e[i].0@);
        assert(m.get_spec(e[i].0@) == Some(e[i].1@));
        lemma_query_lookup_not_empty(params, e[i].0@);
    }
    assert forall|k: Seq<char>| #[trigger] query_lookup(entry_params(e), k) == m.get_spec(k) by {
        lemma_entry_params_lookup(e, k);
    }
}

/// `key=value` of one query parameter, both sides percent-encoded.
pub open spec fn query_pair(p: (String, String)) -> Seq<char> {
    encoded(p.0@) + "="@ + encoded(p.1@)
}

/// The query parameters joined by `&`.
pub open spec fn query_string(ps: Seq<(String, String)>) -> Seq<char>
    decreases ps.len(),
{
    if ps.len() == 0 {
        seq![]
    } else if ps.len() == 1 {
        query_pair(ps[0])
    } else {
        query_string(ps.drop_last()) + "&"@ + query_pair(ps.last())
    }
}

/// `<base>/<path>`, followed by `?<query>` when there are parameters.
pub open spec fn url_text(base: Seq<char>, path: Seq<char>, ps: Seq<(String, String)>) -> Seq<char> {
    if ps.len() == 0 {
        base + "/"@ + path
    } else {
        base + "/"@ + path + "?"@ + query_string(ps)
    }
}

/// The request URL for a base URL, a path and the query parameters in order.
pub fn build_url(base_url: &str, path: &str, query_params: &Vec<(String, String)>) -> (r: String)
    ensures
        r@ == url_text(base_url@, path@, query_params@),
{
    let mut out: Vec<char> = Vec::new();
    push_str(&mut out, base_url);
    push_str(&mut out, "/");
    push_str(&mut out, path);
    if query_params.len() == 0 {
        return string_of(&out);
    }
    push_str(&mut out, "?");
    let ghost head = out@;
    let mut i: usize = 0;
    while i < query_params.len()
        invariant
            i <= query_params.len(),
            out@ == head + query_string(query_params@.take(i as int)),
        decreases query_params.len() - i,
    {
        let ghost before = out@;
        if i > 0 {
            push_str(&mut out, "&");
        }
        let k = segment(query_params[i].0.as_str());
        let v = segment(query_params[i].1.as_str());
        push_str(&mut out, k.as_str());
        push_str(&mut out, "=");
        push_str(&mut out, v.as_str());
        proof {
            let t = query_params@.take(i + 1);
            assert(t.drop_last() =~= query_params@.take(i as int));
            assert(t.last() == query_params@[i as int]);
            if i == 0 {
                assert(out@ =~= head + query_string(t));
            } else {
                assert(out@ =~= head + query_string(t));
            }
        }
        i += 1;
    }
    assert(query_params@.take(query_params@.len() as int) =~= query_params@);
    string_of(&out)
}

/// The body text carried by errors: trimmed and cut to `max_chars`
/// characters, with `...` appended when something was cut.
pub open spec fn truncated(body: Seq<char>, max_chars: nat) -> Seq<char> {
    let t = trim(body);
    take_chars(t, max_chars) + if t.len() > max_chars {
        "..."@
    } else {
        Seq::<char>::empty()
    }
}

/// The body text carried by errors.
pub fn truncate_body(body: &str, max_chars: usize) -> (r: String)
    ensures
        r@ == truncated(body@, max_chars as nat),
{
    let cs = chars_of(body);
    let t = trim_chars(&cs);
    let mut out = take_first(&t, max_chars);
    if t.len() > max_chars {
        push_str(&mut out, "...");
    } else {
        assert(out@ =~= out@ + Seq::<char>::empty());
    }
    string_of(&out)
}

/// A request ready to be sent.
#[derive(Debug, Clone, PartialEq, Eq)]
pub struct HenrikRequestPlan {
    /// The full URL.
    pub url: String,
    /// The `Authorization` header value, in header mode.
    pub authorization: Option<String>,
    /// The path without its leading slashes, for the log lines.
    pub path: String,
}

/// The usable key of the settings: present and not blank.
pub open spec fn usable_key(settings: HenrikSettings) -> Option<Seq<char>> {
    match settings.api_key {
        Some(k) => if trim(k@).len() > 0 {
            Some(k@)
        } else {
            None
        },
        None => None,
    }
}

/// Whether every UTF-8 byte of `s` may stand in a header value.
pub open spec fn header_text_ok(s: Seq<char>) -> bool {
    forall|i: int| 0 <= i < encode_utf8(s).len() ==> header_byte_ok(#[trigger] encode_utf8(s)[i])
}

/// Plans a GET request: picks the key, strips the trailing `/` of the base
/// URL and the leading `/` of the path, and sends the key either in the
/// `Authorization` header or as the last query parameter `api_key`.
pub fn plan_request(settings: &HenrikSettings, path: &str, query: Vec<(String, String)>) -> (r:
    AppResult<HenrikRequestPlan>)
    ensures
        usable_key(*settings) is None ==> r == Err::<HenrikRequestPlan, AppError>(
            AppError::HenrikApiKeyMissing,
        ),
        usable_key(*settings) matches Some(key) ==> {
            let base = trim_end_char(settings.base_url@, '/');
            let p = trim_start_char(path@, '/');
            match settings.auth_mode {
                HenrikAuthMode::Header => if header_text_ok(key) {
                    (r matches Ok(plan) && plan.url@ == url_text(base, p, query@) && plan.path@ == p
                        && (plan.authorization matches Some(a) && a@ == key))
                } else {
                    (r matches Err(e) && (e matches AppError::Header(m) && m@
                        == "failed to parse header value"@))
                },
                HenrikAuthMode::Query => (r matches Ok(plan) && plan.authorization is None
                    && plan.path@ == p && exists|extra: (String, String)|
                    extra.0@ == "api_key"@ && extra.1@ == key && plan.url@ == url_text(
                        base,
                        p,
                        query@.push(extra),
                    )),
            }
        },
{
    let api_key = match &settings.api_key {
        Some(k) => {
            let t = crate::text::trim_str(k.as_str());
            if t.len() == 0 {
                return Err(AppError::HenrikApiKeyMissing);
            }
            k.clone()
        },
        None => {
            return Err(AppError::HenrikApiKeyMissing);
        },
    };
    let base_chars = chars_of(settings.base_url.as_str());
    let base = string_of(&trim_end_matching(&base_chars, '/'));
    let path_chars = chars_of(path);
    let trimmed_path = string_of(&trim_start_matching(&path_chars, '/'));
    match settings.auth_mode {
        HenrikAuthMode::Header => {
            match check_header_value(api_key.as_str()) {
                Ok(()) => {},
                Err(e) => {
                    return Err(AppError::Header(e));
                },
            }
            let url = build_url(base.as_str(), trimmed_path.as_str(), &query);
            Ok(HenrikRequestPlan { url, authorization: Some(api_key), path: trimmed_path })
        },
        HenrikAuthMode::Query => {
            let mut params = query;
            let kc = chars_of("api_key");
            let ghost key_text = api_key;
            let extra = (string_of(&kc), api_key);
            let ghost extra_g = extra;
            params.push(extra);
            let url = build_url(base.as_str(), trimmed_path.as_str(), &params);
            proof {
                assert(extra_g.0@ == "api_key"@);
            }
            Ok(HenrikRequestPlan { url, authorization: None, path: trimmed_path })
        },
    }
}

/// Whether an HTTP status is a success (2xx).
pub open spec fn status_ok(status: u16) -> bool {
    200 <= status <= 299
}

/// The JSON object that carries the rate-limit headers.
pub open spec fn rate_limits_value(j: JsonValue, limits: Seq<(String, String)>) -> bool {
    j matches JsonValue::Object(e) && e@.len() == limits.len() && forall|i: int|
        0 <= i < limits.len() ==> #[trigger] e@[i].0@ == limits[i].0@ && (e@[i].1 matches JsonValue::Str(
            s,
        ) && s@ == limits[i].1@)
}

/// The rate-limit headers as a JSON object of strings.
fn rate_limits_json(limits: &StringMap) -> (r: JsonValue)
    ensures
        rate_limits_value(r, limits.entries@),
{
    let mut e: Vec<(String, JsonValue)> = Vec::new();
    let mut i: usize = 0;
    while i < limits.entries.len()
        invariant
            i <= limits.entries.len(),
            e@.len() == i,
            forall|m: int|
                0 <= m < i ==> #[trigger] e@[m].0@ == limits.entries@[m].0@ && (e@[m].1 matches JsonValue::Str(
                    s,
                ) && s@ == limits.entries@[m].1@),
        decreases limits.entries.len() - i,
    {
        let k = limits.entries[i].0.clone();
        let v = limits.entries[i].1.clone();
        e.push((k, JsonValue::Str(v)));
        i += 1;
    }
    JsonValue::Object(e)
}

/// The value of a successful Henrik response whose body was parsed into
/// `parsed`: a body that is not JSON yields `InvalidResponse` with the
/// parser's message and the first 160 characters of `body`; a JSON object
/// gets the member `_rate_limits` with the rate-limit headers; any other
/// JSON value is returned as it is.
pub fn parsed_response(parsed: Result<JsonValue, String>, rate_limits: &StringMap, body: &str) -> (r:
    AppResult<JsonValue>)
    ensures
        parsed is Err ==> (r matches Err(e) && (e matches AppError::InvalidResponse(m) && m@
            == "Henrik JSON parse failed: "@ + parsed->Err_0@ + "; body starts with: "@ + truncated(
            body@,
            160,
        ))),
        parsed is Ok ==> (r matches Ok(v) && {
            let p = parsed->Ok_0;
            if p is Object {
                exists|k: String, rl: JsonValue|
                    k@ == "_rate_limits"@ && rate_limits_value(rl, rate_limits.entries@) && v
                        is Object && v->Object_0@ == entries_insert(p->Object_0@, k, rl)
            } else {
                v == p
            }
        }),
{
    match parsed {
        Err(e) => {
            let mut m: Vec<char> = Vec::new();
            push_str(&mut m, "Henrik JSON parse failed: ");
            push_str(&mut m, e.as_str());
            push_str(&mut m, "; body starts with: ");
            let t = truncate_body(body, 160);
            push_str(&mut m, t.as_str());
            Err(AppError::InvalidResponse(string_of(&m)))
        },
        Ok(mut value) => {
            let kc = chars_of("_rate_limits");
            let key = string_of(&kc);
            let rl = rate_limits_json(rate_limits);
            let ghost kg = key;
            let ghost rlg = rl;
            value.insert_field(key, rl);
            Ok(value)
        },
    }
}

/// Handles a Henrik response: an error status yields `HenrikRequestFailed`
/// with the body cut to 600 characters; otherwise the body is parsed as JSON
/// and handed to `parsed_response`.
pub fn parse_response(status: u16, rate_limits: &StringMap, body: &str) -> (r: AppResult<JsonValue>)
    ensures
        !status_ok(status) ==> (r matches Err(e) && (e matches AppError::HenrikRequestFailed {
            status: s,
            body: b,
        } && s == status && b@ == truncated(body@, 600))),
        status_ok(status) && json_text_parse(body@) is Err ==> (r matches Err(e)
            && (e matches AppError::InvalidResponse(m) && m@ == "Henrik JSON parse failed: "@
            + json_text_parse(body@)->Err_0 + "; body starts with: "@ + truncated(body@, 160))),
        status_ok(status) && json_text_parse(body@) is Ok ==> (r matches Ok(v) && {
            let parsed = json_text_parse(body@)->Ok_0;
            if parsed is Object {
                exists|k: String, rl: JsonValue|
                    k@ == "_rate_limits"@ && rate_limits_value(rl, rate_limits.entries@) && v
                        is Object && v->Object_0@ == entries_insert(parsed->Object_0@, k, rl)
            } else {
                v == parsed
            }
        }),
{
    if !(200 <= status && status <= 299) {
        return Err(AppError::HenrikRequestFailed { status, body: truncate_body(body, 600) });
    }
    parsed_response(parse_json(body), rate_limits, body)
}

/// Names of the rate-limit and cache headers copied into `_rate_limits`.
pub open spec fn rate_limit_header_name(i: int) -> Seq<char> {
    if i == 0 {
        "ratelimit"@
    } else if i == 1 {
        "ratelimit-policy"@
    } else if i == 2 {
        "x-ratelimit-limit"@
    } else if i == 3 {
        "x-ratelimit-remaining"@
    } else if i == 4 {
        "x-ratelimit-reset"@
    } else if i == 5 {
        "x-cache-status"@
    } else {
        "x-cache-ttl"@
    }
}

proof fn lemma_header_name_distinct(i: int, j: int)
    requires
        0 <= i < 7,
        0 <= j < 7,
        i != j,
    ensures
        rate_limit_header_name(i) != rate_limit_header_name(j),
{
    reveal_strlit("ratelimit");
    reveal_strlit("ratelimit-policy");
    reveal_strlit("x-ratelimit-limit");
    reveal_strlit("x-ratelimit-remaining");
    reveal_strlit("x-ratelimit-reset");
    reveal_strlit("x-cache-status");
    reveal_strlit("x-cache-ttl");
    assert("x-ratelimit-limit"@[12] != "x-ratelimit-reset"@[12]);
    if rate_limit_header_name(i) == rate_limit_header_name(j) {
        assert(rate_limit_header_name(i).len() == rate_limit_header_name(j).len());
        if (i == 2 && j == 4) || (i == 4 && j == 2) {
            assert(rate_limit_header_name(i)[12] == rate_limit_header_name(j)[12]);
        }
    }
}

proof fn lemma_header_names_distinct()
    ensures
        forall|i: int, j: int|
            0 <= i < 7 && 0 <= j < 7 && i != j ==> #[trigger] rate_limit_header_name(i)
                != #[trigger] rate_limit_header_name(j),
{
    assert forall|i: int, j: int|
        0 <= i < 7 && 0 <= j < 7 && i != j implies #[trigger] rate_limit_header_name(i)
            != #[trigger] rate_limit_header_name(j) by {
        lemma_header_name_distinct(i, j);
    }
}

/// Names of the rate-limit and cache headers copied into `_rate_limits`, in
/// the order in which they are looked up.
pub fn rate_limit_header_names() -> (r: Vec<&'static str>)
    ensures
        r@.len() == 7,
        forall|i: int| 0 <= i < 7 ==> #[trigger] r@[i]@ == rate_limit_header_name(i),
{
    let mut r: Vec<&'static str> = Vec::new();
    r.push("ratelimit");
    r.push("ratelimit-policy");
    r.push("x-ratelimit-limit");
    r.push("x-ratelimit-remaining");
    r.push("x-ratelimit-reset");
    r.push("x-cache-status");
    r.push("x-cache-ttl");
    r
}

/// The rate-limit map from the header values looked up for
/// `rate_limit_header_names` (`None` for a header that is absent or not
/// visible ASCII).
pub fn rate_limit_map(values: Vec<Option<String>>) -> (r: StringMap)
    requires
        values@.len() == 7,
    ensures
        r.wf(),
        forall|i: int| #![trigger values@[i]] 0 <= i < 7 ==> match values@[i] {
            Some(v) => r.get_spec(rate_limit_header_name(i)) == Some(v@),
            None => r.get_spec(rate_limit_header_name(i)) is None,
        },
        forall|k: Seq<char>|
            (forall|i: int| 0 <= i < 7 ==> k != rate_limit_header_name(i)) ==> #[trigger] r.get_spec(k) is None,
{
    let names = rate_limit_header_names();
    let mut map = StringMap::new();
    let mut i: usize = 0;
    while i < 7
        invariant
            i <= 7,
            values@.len() == 7,
            map.wf(),
            names@.len() == 7,
            forall|m: int| 0 <= m < 7 ==> #[trigger] names@[m]@ == rate_limit_header_name(m),
            forall|m: int| #![trigger values@[m]] 0 <= m < i ==> match values@[m] {
                Some(v) => map.get_spec(rate_limit_header_name(m)) == Some(v@),
                None => map.get_spec(rate_limit_header_name(m)) is None,
            },
            forall|m: int| #![trigger rate_limit_header_name(m)] i <= m < 7 ==> map.get_spec(rate_limit_header_name(m)) is None,
            forall|k: Seq<char>|
                (forall|m: int| 0 <= m < 7 ==> k != rate_limit_header_name(m)) ==> #[trigger] map.get_spec(k) is None,
        decreases 7 - i,
    {
        match &values[i] {
            Some(v) => {
                let kc = chars_of(names[i]);
                proof {
                    lemma_header_names_distinct();
                }
                map.insert(string_of(&kc), v.clone());
            },
            None => {},
        }
        i += 1;
    }
    map
}

/// The body an error carries is never longer than the limit plus the
/// three dots that mark a cut.
pub proof fn law_truncated_bounded(body: Seq<char>, max_chars: nat)
    ensures
        truncated(body, max_chars).len() <= max_chars + 3,
{
    reveal_strlit("...");
}

} // verus!
