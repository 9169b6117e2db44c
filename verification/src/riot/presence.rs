//! The player's own presence and the game state it carries.
use vstd::prelude::*;
use vstd::utf8::{decode_utf8, encode_utf8, valid_utf8};

use crate::codec::{
    base64_decode, base64_decode_error_text, base64_encode, base64_decode_str, lemma_base64_injective,
    utf8_error_text, utf8_string,
};
use crate::errors::{invalid_response, AppError, AppResult};
use crate::json::{json_text_parse, parse_json, JsonValue};
use crate::models::presence::PresenceEntry;
use crate::text::str_eq;

verus! {

/// Index of the first presence that belongs to `puuid`.
pub open spec fn presence_index(presences: Seq<PresenceEntry>, puuid: Seq<char>) -> Option<int>
    decreases presences.len(),
{
    if presences.len() == 0 {
        None
    } else if presences[0].puuid@ == puuid {
        Some(0)
    } else {
        match presence_index(presences.drop_first(), puuid) {
            Some(i) => Some(i + 1),
            None => None,
        }
    }
}

/// The game state a decoded private presence reports:
/// `matchPresenceData.sessionLoopState`, when it is a string.
pub open spec fn session_loop_state(private: JsonValue) -> Option<Seq<char>> {
    private.at("matchPresenceData"@).at("sessionLoopState"@).str_value()
}

/// The first presence that belongs to the player `puuid`.
pub fn find_my_presence(presences: Vec<PresenceEntry>, puuid: &str) -> (r: AppResult<PresenceEntry>)
    ensures
        presence_index(presences@, puuid@) matches Some(i) ==> r == Ok::<PresenceEntry, AppError>(
            presences@[i],
        ),
        presence_index(presences@, puuid@) is None ==> (r matches Err(e) && (e matches AppError::InvalidResponse(m)
            && m@ == "my presence was not found"@)),
{
    let ghost all = presences@;
    let mut rest = presences;
    let mut i: usize = 0;
    assert(all.skip(0) =~= all);
    while i < rest.len()
        invariant
            i <= rest.len(),
            rest@ == all,
            presences@ == all,
            presence_index(all, puuid@) == match presence_index(all.skip(i as int), puuid@) {
                Some(j) => Some(j + i),
                None => None,
            },
        decreases rest.len() - i,
    {
        assert(all.skip(i as int)[0] == all[i as int]);
        if str_eq(rest[i].puuid.as_str(), puuid) {
            assert(presence_index(all.skip(i as int), puuid@) == Some(0int));
            let entry = rest.remove(i);
            return Ok(entry);
        }
        assert(all.skip(i as int).drop_first() =~= all.skip(i + 1));
        i += 1;
    }
    assert(all.skip(i as int).len() == 0);
    Err(invalid_response("my presence was not found"))
}

/// Decodes the private part of a presence: base64 text of UTF-8 JSON.
pub fn decode_private_presence(entry: &PresenceEntry) -> (r: AppResult<JsonValue>)
    ensures
        match entry.private {
            None => r matches Err(e) && (e matches AppError::InvalidResponse(m) && m@
                == "private presence is missing"@),
            Some(p) => match base64_decode(p@) {
                None => r matches Err(e) && (e matches AppError::Base64(m) && m@
                    == base64_decode_error_text(encode_utf8(p@))),
                Some(b) => if !valid_utf8(b) {
                    r matches Err(e) && (e matches AppError::Utf8(m) && m@ == utf8_error_text(b))
                } else {
                    match json_text_parse(decode_utf8(b)) {
                        Ok(v) => r == Ok::<JsonValue, AppError>(v),
                        Err(msg) => r matches Err(e) && (e matches AppError::InvalidResponse(m) && m@
                            == msg),
                    }
                },
            },
        },
{
    let private = match &entry.private {
        Some(p) => p,
        None => {
            return Err(invalid_response("private presence is missing"));
        },
    };
    let bytes = match base64_decode_str(private.as_str()) {
        Ok(b) => b,
        Err(e) => {
            return Err(AppError::Base64(e));
        },
    };
    proof {
        let text = private@;
        assert(base64_encode(bytes@) == text);
        assert(exists|c: Seq<u8>| base64_encode(c) == text);
        let c = choose|c: Seq<u8>| base64_encode(c) == text;
        lemma_base64_injective(c, bytes@);
    }
    let ghost raw = bytes@;
    let decoded = match utf8_string(bytes) {
        Ok(s) => s,
        Err(e) => {
            return Err(AppError::Utf8(e));
        },
    };
    assert(decoded@ == decode_utf8(raw));
    match parse_json(decoded.as_str()) {
        Ok(v) => Ok(v),
        Err(e) => Err(AppError::InvalidResponse(e)),
    }
}

/// The game state of the player: `IDLE` when the private presence could
/// not be had; otherwise its `sessionLoopState`, which must be a string.
pub fn gamestate_from(private: AppResult<JsonValue>) -> (r: AppResult<String>)
    ensures
        private is Err ==> (r matches Ok(s) && s@ == "IDLE"@),
        private matches Ok(v) ==> match session_loop_state(v) {
            Some(state) => r matches Ok(s) && s@ == state,
            None => r matches Err(e) && (e matches AppError::InvalidResponse(m) && m@
                == "sessionLoopState is missing"@),
        },
{
    match private {
        Ok(json) => match json.index("matchPresenceData").index("sessionLoopState").as_str() {
            Some(s) => Ok(s.to_owned()),
            None => Err(invalid_response("sessionLoopState is missing")),
        },
        Err(_) => Ok("IDLE".to_owned()),
    }
}

} // verus!
