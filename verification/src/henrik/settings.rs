//! Settings of the Henrik API client: `settings.json` and the separate
//! `api.txt` key file in the configuration directory.
use vstd::prelude::*;

use crate::text::{
    chars_of, free_of, lemma_split_single, law_trim_idempotent, split_char, split_chars, starts_with, string_of, trim, trim_chars,
};

verus! {

/// How the API key is sent.
#[derive(Debug, Clone, Copy, PartialEq, Eq)]
pub enum HenrikAuthMode {
    Header,
    Query,
}

/// The contents of `settings.json`, with the key from `api.txt` merged in.
#[derive(Debug, Clone, PartialEq, Eq)]
pub struct HenrikSettings {
    pub base_url: String,
    pub auth_mode: HenrikAuthMode,
    pub api_key: Option<String>,
}

/// What the settings command reports to the UI.
#[derive(Debug, Clone, PartialEq, Eq)]
pub struct HenrikRuntimeSettings {
    pub settings_path: String,
    pub api_key_path: String,
    pub debug_log_path: String,
    pub base_url: String,
    pub auth_mode: HenrikAuthMode,
    pub has_api_key: bool,
}

/// The text written to a new `api.txt`.
pub const API_KEY_FILE_TEMPLATE: &'static str = "# Henrik API key をこのファイルの 1 行目に貼り付けてください\n";

/// The default API base URL.
pub open spec fn default_base_url_text() -> Seq<char> {
    "https://api.henrikdev.xyz"@
}

/// The default API base URL.
pub fn default_base_url() -> (r: String)
    ensures
        r@ == default_base_url_text(),
{
    let cs = chars_of("https://api.henrikdev.xyz");
    string_of(&cs)
}

/// The default way of sending the key: the `Authorization` header.
pub fn default_auth_mode() -> (r: HenrikAuthMode)
    ensures
        r == HenrikAuthMode::Header,
{
    HenrikAuthMode::Header
}

impl HenrikSettings {
    /// The settings used when `settings.json` is missing or unreadable.
    pub open spec fn is_default(self) -> bool {
        &&& self.base_url@ == default_base_url_text()
        &&& self.auth_mode == HenrikAuthMode::Header
        &&& self.api_key is None
    }
}

impl Default for HenrikSettings {
    fn default() -> (r: HenrikSettings)
        ensures
            r.is_default(),
    {
        HenrikSettings { base_url: default_base_url(), auth_mode: default_auth_mode(), api_key: None }
    }
}

/// Whether a trimmed line of `api.txt` is the key: not empty, not a `#`
/// comment and not the placeholder word `api`.
pub open spec fn is_key_line(line: Seq<char>) -> bool {
    line.len() > 0 && !starts_with(line, "#"@) && line != "api"@
}

/// The first line of `lines`, trimmed, that is a key line.
pub open spec fn first_key_line(lines: Seq<Seq<char>>) -> Option<Seq<char>>
    decreases lines.len(),
{
    if lines.len() == 0 {
        None
    } else if is_key_line(trim(lines[0])) {
        Some(trim(lines[0]))
    } else {
        first_key_line(lines.drop_first())
    }
}

/// The key an `api.txt` text holds. The text is cut at `\n`; a `\r` before
/// the `\n` and any other surrounding whitespace is trimmed off, so this is
/// the first trimmed line of `str::lines` that is a key line.
pub open spec fn api_key_in(content: Seq<char>) -> Option<Seq<char>> {
    first_key_line(split_char(content, '\n'))
}

proof fn lemma_comment_prefix(line: Seq<char>)
    requires
        line.len() > 0,
    ensures
        starts_with(line, "#"@) == (line[0] == '#'),
{
    reveal_strlit("#");
    assert("#"@.len() == 1);
    if line[0] == '#' {
        assert(line.subrange(0, 1) =~= "#"@);
    } else {
        assert(line.subrange(0, 1)[0] != "#"@[0]);
    }
}

/// The API key stored in the text of `api.txt`.
pub fn api_key_from_file(content: &str) -> (r: Option<String>)
    ensures
        r is Some <==> api_key_in(content@) is Some,
        r matches Some(k) ==> api_key_in(content@) == Some(k@),
{
    let cs = chars_of(content);
    let lines = split_chars(&cs, '\n');
    let ghost all = split_char(content@, '\n');
    let mut i: usize = 0;
    assert(all.skip(0) =~= all);
    while i < lines.len()
        invariant
            i <= lines.len(),
            lines@.len() == all.len(),
            forall|m: int| 0 <= m < lines@.len() ==> #[trigger] lines@[m]@ == all[m],
            api_key_in(content@) == first_key_line(all.skip(i as int)),
        decreases lines.len() - i,
    {
        let line = trim_chars(&lines[i]);
        assert(all.skip(i as int)[0] == all[i as int]);
        let is_comment = line.len() > 0 && line[0] == '#';
        proof {
            if line@.len() > 0 {
                lemma_comment_prefix(line@);
            }
        }
        let is_api = crate::text::str_eq(string_of(&line).as_str(), "api");
        if line.len() > 0 && !is_comment && !is_api {
            return Some(string_of(&line));
        }
        assert(all.skip(i as int).drop_first() =~= all.skip(i + 1));
        i += 1;
    }
    None
}

/// The merged settings: the parsed `settings.json` (or the defaults when it
/// could not be parsed) with the key from `api.txt` replacing the stored
/// key when the key file holds one.
pub fn load_settings(parsed: Option<HenrikSettings>, api_key_file: &str) -> (r: HenrikSettings)
    ensures
        match parsed {
            Some(p) => r.base_url == p.base_url && r.auth_mode == p.auth_mode,
            None => r.base_url@ == default_base_url_text() && r.auth_mode
                == HenrikAuthMode::Header,
        },
        api_key_in(api_key_file@) matches Some(k) ==> r.api_key matches Some(s) && s@ == k,
        api_key_in(api_key_file@) is None ==> r.api_key == match parsed {
            Some(p) => p.api_key,
            None => None,
        },
{
    let mut settings = match parsed {
        Some(p) => p,
        None => HenrikSettings::default(),
    };
    match api_key_from_file(api_key_file) {
        Some(k) => {
            settings.api_key = Some(k);
        },
        None => {},
    }
    settings
}

/// The settings report for the UI.
pub fn runtime_settings(
    settings: HenrikSettings,
    settings_path: String,
    api_key_path: String,
    debug_log_path: String,
) -> (r: HenrikRuntimeSettings)
    ensures
        r.settings_path == settings_path,
        r.api_key_path == api_key_path,
        r.debug_log_path == debug_log_path,
        r.base_url == settings.base_url,
        r.auth_mode == settings.auth_mode,
        r.has_api_key == settings.api_key is Some,
{
    let has_api_key = settings.api_key.is_some();
    HenrikRuntimeSettings {
        settings_path,
        api_key_path,
        debug_log_path,
        base_url: settings.base_url,
        auth_mode: settings.auth_mode,
        has_api_key,
    }
}

/// The text stored in `api.txt` when the user saves a key: the key trimmed.
pub fn api_key_file_text(api_key: &str) -> (r: String)
    ensures
        r@ == trim(api_key@),
{
    let t = crate::text::trim_str(api_key);
    string_of(&t)
}

proof fn lemma_first_key_line(lines: Seq<Seq<char>>)
    ensures
        first_key_line(lines) matches Some(k) ==> is_key_line(k) && trim(k) == k,
    decreases lines.len(),
{
    if lines.len() > 0 {
        law_trim_idempotent(lines[0]);
        lemma_first_key_line(lines.drop_first());
    }
}

/// The key read from `api.txt` is a key line and carries no surrounding
/// whitespace: it is not empty, no comment and not the placeholder.
pub proof fn law_api_key_is_trimmed(content: Seq<char>)
    ensures
        api_key_in(content) matches Some(k) ==> is_key_line(k) && trim(k) == k,
{
    lemma_first_key_line(split_char(content, '\n'));
}

/// A key saved to `api.txt` is the key read back from it, when the saved
/// text is a single key line.
pub proof fn law_saved_key_is_read_back(api_key: Seq<char>)
    requires
        free_of(trim(api_key), '\n'),
        is_key_line(trim(api_key)),
    ensures
        api_key_in(trim(api_key)) == Some(trim(api_key)),
{
    let t = trim(api_key);
    lemma_split_single(t, '\n');
    law_trim_idempotent(api_key);
    let lines = split_char(t, '\n');
    assert(lines[0] == t);
    assert(first_key_line(lines) == Some(trim(t)));
}

} // verus!
