//! The Riot Client lockfile: `name:pid:port:password:protocol`.
use vstd::prelude::*;
use vstd::utf8::encode_utf8;

use crate::codec::{base64_encode, base64_encode_bytes, utf8_bytes};
use crate::errors::{invalid_response, AppError, AppResult};
use crate::text::{
    chars_of, free_of, lemma_split_cons, lemma_split_single, push_all, push_str, split_char, split_chars,
    string_of,
};

verus! {

/// The fields of a Riot Client lockfile together with its raw text.
#[derive(Debug, Clone, PartialEq, Eq)]
pub struct LockfileData {
    pub name: String,
    pub pid: String,
    pub port: String,
    pub password: String,
    pub protocol: String,
    pub raw: String,
}

/// The colon-separated fields of a lockfile text.
pub open spec fn lockfile_fields(raw: Seq<char>) -> Seq<Seq<char>> {
    split_char(raw, ':')
}

/// The message reported for a lockfile with fewer than five fields.
pub open spec fn short_lockfile_message() -> Seq<char> {
    "lockfile must contain name, pid, port, password and protocol"@
}

/// The `Authorization` header value of the Riot Local API for a password.
pub open spec fn basic_authorization(password: Seq<char>) -> Seq<char> {
    "Basic "@ + base64_encode(encode_utf8("riot:"@ + password))
}

impl LockfileData {
    /// Splits the lockfile text at `:`; the first five fields are name, pid,
    /// port, password and protocol, further fields are ignored.
    pub fn parse(raw: String) -> (r: AppResult<LockfileData>)
        ensures
            r is Err <==> lockfile_fields(raw@).len() < 5,
            r matches Err(e) ==> e matches AppError::InvalidResponse(m) && m@
                == short_lockfile_message(),
            r matches Ok(d) ==> {
                &&& d.name@ == lockfile_fields(raw@)[0]
                &&& d.pid@ == lockfile_fields(raw@)[1]
                &&& d.port@ == lockfile_fields(raw@)[2]
                &&& d.password@ == lockfile_fields(raw@)[3]
                &&& d.protocol@ == lockfile_fields(raw@)[4]
                &&& d.raw == raw
            },
    {
        let cs = chars_of(raw.as_str());
        let split = split_chars(&cs, ':');
        if split.len() < 5 {
            return Err(
                invalid_response("lockfile must contain name, pid, port, password and protocol"),
            );
        }
        let name = string_of(&split[0]);
        let pid = string_of(&split[1]);
        let port = string_of(&split[2]);
        let password = string_of(&split[3]);
        let protocol = string_of(&split[4]);
        Ok(LockfileData { name, pid, port, password, protocol, raw })
    }

    /// `Basic ` followed by the base64 of `riot:<password>`.
    pub fn authorization_header(&self) -> (r: String)
        ensures
            r@ == basic_authorization(self.password@),
    {
        basic_authorization_for(self.password.as_str())
    }
}

/// `Basic ` followed by the base64 of `riot:<password>`.
pub fn basic_authorization_for(password: &str) -> (r: String)
    ensures
        r@ == basic_authorization(password@),
{
    let mut credentials: Vec<char> = Vec::new();
    push_str(&mut credentials, "riot:");
    push_str(&mut credentials, password);
    let credentials = string_of(&credentials);
    let encoded = base64_encode_bytes(utf8_bytes(credentials.as_str()));
    let mut out: Vec<char> = Vec::new();
    push_str(&mut out, "Basic ");
    push_str(&mut out, encoded.as_str());
    string_of(&out)
}

/// The lockfile text of five fields: joined with `:`.
pub open spec fn lockfile_text(
    name: Seq<char>,
    pid: Seq<char>,
    port: Seq<char>,
    password: Seq<char>,
    protocol: Seq<char>,
) -> Seq<char> {
    name + seq![':'] + pid + seq![':'] + port + seq![':'] + password + seq![':'] + protocol
}

/// Reading a lockfile gives back the fields it was written from, provided
/// no field holds a `:`.
pub proof fn law_lockfile_round_trip(
    name: Seq<char>,
    pid: Seq<char>,
    port: Seq<char>,
    password: Seq<char>,
    protocol: Seq<char>,
)
    requires
        free_of(name, ':'),
        free_of(pid, ':'),
        free_of(port, ':'),
        free_of(password, ':'),
        free_of(protocol, ':'),
    ensures
        lockfile_fields(lockfile_text(name, pid, port, password, protocol)) == seq![
            name,
            pid,
            port,
            password,
            protocol,
        ],
{
    let t4 = password + seq![':'] + protocol;
    let t3 = port + seq![':'] + t4;
    let t2 = pid + seq![':'] + t3;
    let t1 = name + seq![':'] + t2;
    assert(lockfile_text(name, pid, port, password, protocol) =~= t1);
    lemma_split_single(protocol, ':');
    lemma_split_cons(password, protocol, ':');
    lemma_split_cons(port, t4, ':');
    lemma_split_cons(pid, t3, ':');
    lemma_split_cons(name, t2, ':');
    assert(split_char(t1, ':') =~= seq![name, pid, port, password, protocol]);
}

} // verus!
