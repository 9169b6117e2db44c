//! The debug log lines written for every HTTP exchange with the Riot,
//! Henrik and asset APIs. The functions return the line; the caller hands
//! it to the logger.
use vstd::prelude::*;
use vstd::utf8::encode_utf8;

use crate::text::{
    decimal, decimal_chars, is_space, is_space_char, push_all, push_str, slice_chars, string_of,
    take_chars, take_first, trim_start, chars_of,
};

verus! {

/// Number of leading non-whitespace characters of `t`.
pub open spec fn word_len(t: Seq<char>) -> nat
    decreases t.len(),
{
    if t.len() > 0 && !is_space(t[0]) {
        1 + word_len(t.drop_first())
    } else {
        0
    }
}

/// Joins two texts with a single space, leaving out empty sides.
pub open spec fn glue(a: Seq<char>, b: Seq<char>) -> Seq<char> {
    if a.len() == 0 {
        b
    } else if b.len() == 0 {
        a
    } else {
        a + seq![' '] + b
    }
}

/// The whitespace-separated words of `s` joined by single spaces
/// (`split_whitespace().collect::<Vec<_>>().join(" ")`).
pub open spec fn compact_spaces(s: Seq<char>) -> Seq<char>
    decreases s.len(),
{
    let t = trim_start(s);
    let n = word_len(t);
    if t.len() == 0 {
        seq![]
    } else if 0 < n <= t.len() <= s.len() {
        glue(t.take(n as int), compact_spaces(t.skip(n as int)))
    } else {
        seq![]
    }
}

/// `s` with every `"` replaced by `'`.
pub open spec fn replace_quotes(s: Seq<char>) -> Seq<char> {
    s.map_values(|c: char| if c == '"' { '\'' } else { c })
}

/// The body excerpt of the log lines: whitespace collapsed, cut to
/// `max_chars` characters with `...` appended when something was cut, and
/// double quotes turned into single quotes.
pub open spec fn preview_text(body: Seq<char>, max_chars: nat) -> Seq<char> {
    let compact = compact_spaces(body);
    let cut = take_chars(compact, max_chars) + if compact.len() > max_chars {
        "..."@
    } else {
        Seq::<char>::empty()
    };
    replace_quotes(cut)
}

/// `HTTP <scope> <method> <path> -> `
pub open spec fn log_head(scope: Seq<char>, method: Seq<char>, path: Seq<char>) -> Seq<char> {
    "HTTP "@ + scope + " "@ + method + " "@ + path + " -> "@
}

/// The line of a completed exchange.
pub open spec fn response_line(
    scope: Seq<char>,
    method: Seq<char>,
    path: Seq<char>,
    status: u16,
    elapsed_ms: u128,
    body_len: nat,
) -> Seq<char> {
    log_head(scope, method, path) + decimal(status as nat) + " in "@ + decimal(elapsed_ms as nat)
        + "ms body="@ + decimal(body_len) + "B"@
}

proof fn lemma_trim_start_len(s: Seq<char>)
    ensures
        trim_start(s).len() <= s.len(),
        trim_start(s).len() > 0 ==> !is_space(trim_start(s)[0]),
    decreases s.len(),
{
    if s.len() > 0 && is_space(s[0]) {
        lemma_trim_start_len(s.drop_first());
    }
}

proof fn lemma_word_len(t: Seq<char>)
    ensures
        word_len(t) <= t.len(),
        t.len() > 0 && !is_space(t[0]) ==> word_len(t) > 0,
    decreases t.len(),
{
    if t.len() > 0 && !is_space(t[0]) {
        lemma_word_len(t.drop_first());
    }
}

proof fn lemma_glue_assoc(a: Seq<char>, w: Seq<char>, r: Seq<char>)
    requires
        w.len() > 0,
    ensures
        glue(glue(a, w), r) == glue(a, glue(w, r)),
{
    if a.len() > 0 && r.len() > 0 {
        assert(a + seq![' '] + w + seq![' '] + r =~= a + seq![' '] + (w + seq![' '] + r));
    }
}

/// `split_whitespace().collect::<Vec<_>>().join(" ")` on a character vector.
pub fn compact_whitespace(s: &Vec<char>) -> (r: Vec<char>)
    ensures
        r@ == compact_spaces(s@),
{
    let mut out: Vec<char> = Vec::new();
    let mut k: usize = 0;
    assert(s@.skip(0) =~= s@);
    while k < s.len()
        invariant
            k <= s.len(),
            compact_spaces(s@) == glue(out@, compact_spaces(s@.skip(k as int))),
        decreases s.len() - k,
    {
        let mut i: usize = k;
        while i < s.len() && is_space_char(s[i])
            invariant
                k <= i <= s.len(),
                trim_start(s@.skip(k as int)) == trim_start(s@.skip(i as int)),
            decreases s.len() - i,
        {
            assert(s@.skip(i as int).drop_first() =~= s@.skip(i + 1));
            i += 1;
        }
        assert(trim_start(s@.skip(i as int)) == s@.skip(i as int));
        if i == s.len() {
            assert(s@.skip(i as int).len() == 0);
            assert(compact_spaces(s@.skip(k as int)) == Seq::<char>::empty());
            return out;
        }
        let mut j: usize = i;
        while j < s.len() && !is_space_char(s[j])
            invariant
                i <= j <= s.len(),
                word_len(s@.skip(i as int)) == (j - i) + word_len(s@.skip(j as int)),
            decreases s.len() - j,
        {
            assert(s@.skip(j as int).drop_first() =~= s@.skip(j + 1));
            j += 1;
        }
        let ghost t = s@.skip(i as int);
        proof {
            assert(word_len(s@.skip(j as int)) == 0);
            lemma_word_len(t);
            lemma_trim_start_len(s@.skip(k as int));
            assert(t.take(j - i) =~= s@.subrange(i as int, j as int));
            assert(t.skip(j - i) =~= s@.skip(j as int));
            assert(compact_spaces(s@.skip(k as int)) == glue(
                s@.subrange(i as int, j as int),
                compact_spaces(s@.skip(j as int)),
            ));
            lemma_glue_assoc(out@, s@.subrange(i as int, j as int), compact_spaces(s@.skip(j as int)));
        }
        let word = slice_chars(s, i, j);
        let ghost before = out@;
        if out.len() > 0 {
            out.push(' ');
        }
        push_all(&mut out, &word);
        assert(out@ =~= glue(before, word@));
        k = j;
    }
    assert(s@.skip(k as int).len() == 0);
    out
}

/// `s` with every `"` replaced by `'`.
fn replace_double_quotes(s: &Vec<char>) -> (r: Vec<char>)
    ensures
        r@ == replace_quotes(s@),
{
    let mut r: Vec<char> = Vec::new();
    let mut k: usize = 0;
    while k < s.len()
        invariant
            k <= s.len(),
            r@ =~= replace_quotes(s@.subrange(0, k as int)),
        decreases s.len() - k,
    {
        if s[k] == '"' {
            r.push('\'');
        } else {
            r.push(s[k]);
        }
        k += 1;
        assert(replace_quotes(s@.subrange(0, k as int)) =~= replace_quotes(
            s@.subrange(0, k - 1),
        ).push(if s@[k - 1] == '"' { '\'' } else { s@[k - 1] }));
    }
    assert(s@.subrange(0, s@.len() as int) =~= s@);
    r
}

/// The body excerpt of the log lines.
pub fn preview(body: &str, max_chars: usize) -> (r: String)
    ensures
        r@ == preview_text(body@, max_chars as nat),
{
    let cs = chars_of(body);
    let compact = compact_whitespace(&cs);
    let mut cut = take_first(&compact, max_chars);
    if compact.len() > max_chars {
        push_str(&mut cut, "...");
    } else {
        assert(cut@ =~= cut@ + Seq::<char>::empty());
    }
    let replaced = replace_double_quotes(&cut);
    string_of(&replaced)
}

fn push_head(out: &mut Vec<char>, scope: &str, method: &str, path: &str)
    ensures
        final(out)@ == old(out)@ + log_head(scope@, method@, path@),
{
    push_str(out, "HTTP ");
    push_str(out, scope);
    push_str(out, " ");
    push_str(out, method);
    push_str(out, " ");
    push_str(out, path);
    push_str(out, " -> ");
    assert(final(out)@ =~= old(out)@ + log_head(scope@, method@, path@));
}

fn push_decimal(out: &mut Vec<char>, n: u128)
    ensures
        final(out)@ == old(out)@ + decimal(n as nat),
{
    let digits = decimal_chars(n);
    push_all(out, &digits);
}

/// Log line of a completed exchange:
/// `HTTP <scope> <method> <path> -> <status> in <ms>ms body=<bytes>B`.
pub fn response(
    scope: &str,
    method: &str,
    path: &str,
    status: u16,
    elapsed_ms: u128,
    body_len: usize,
) -> (r: String)
    ensures
        r@ == response_line(scope@, method@, path@, status, elapsed_ms, body_len as nat),
{
    let mut out: Vec<char> = Vec::new();
    push_head(&mut out, scope, method, path);
    push_decimal(&mut out, status as u128);
    push_str(&mut out, " in ");
    push_decimal(&mut out, elapsed_ms);
    push_str(&mut out, "ms body=");
    push_decimal(&mut out, body_len as u128);
    push_str(&mut out, "B");
    assert(out@ =~= response_line(scope@, method@, path@, status, elapsed_ms, body_len as nat));
    string_of(&out)
}

/// Log line of an exchange answered with an error status; it adds a
/// 160-character preview of the body.
pub fn response_error(
    scope: &str,
    method: &str,
    path: &str,
    status: u16,
    elapsed_ms: u128,
    body: &str,
) -> (r: String)
    ensures
        r@ == response_line(scope@, method@, path@, status, elapsed_ms, body.len() as nat)
            + " preview=\""@ + preview_text(body@, 160) + "\""@,
{
    let mut out: Vec<char> = Vec::new();
    push_head(&mut out, scope, method, path);
    push_decimal(&mut out, status as u128);
    push_str(&mut out, " in ");
    push_decimal(&mut out, elapsed_ms);
    push_str(&mut out, "ms body=");
    push_decimal(&mut out, body.len() as u128);
    push_str(&mut out, "B");
    push_str(&mut out, " preview=\"");
    let p = preview(body, 160);
    push_str(&mut out, p.as_str());
    push_str(&mut out, "\"");
    assert(out@ =~= response_line(
        scope@,
        method@,
        path@,
        status,
        elapsed_ms,
        body.len() as nat,
    ) + " preview=\""@ + preview_text(body@, 160) + "\""@);
    string_of(&out)
}

/// Log line of an exchange that failed before a response arrived:
/// `HTTP <scope> <method> <path> -> transport_error in <ms>ms error="<error>"`.
pub fn transport_error(scope: &str, method: &str, path: &str, elapsed_ms: u128, error: &str) -> (r:
    String)
    ensures
        r@ == log_head(scope@, method@, path@) + "transport_error in "@ + decimal(
            elapsed_ms as nat,
        ) + "ms error=\""@ + error@ + "\""@,
{
    let mut out: Vec<char> = Vec::new();
    push_head(&mut out, scope, method, path);
    push_str(&mut out, "transport_error in ");
    push_decimal(&mut out, elapsed_ms);
    push_str(&mut out, "ms error=\"");
    push_str(&mut out, error);
    push_str(&mut out, "\"");
    assert(out@ =~= log_head(scope@, method@, path@) + "transport_error in "@ + decimal(
        elapsed_ms as nat,
    ) + "ms error=\""@ + error@ + "\""@);
    string_of(&out)
}

/// Log line of a response body that could not be parsed; it adds the
/// parser's error and a 160-character preview of the body.
pub fn parse_error(
    scope: &str,
    method: &str,
    path: &str,
    elapsed_ms: u128,
    error: &str,
    body: &str,
) -> (r: String)
    ensures
        r@ == log_head(scope@, method@, path@) + "parse_error in "@ + decimal(elapsed_ms as nat)
            + "ms error=\""@ + error@ + "\" body="@ + decimal(body.len() as nat)
            + "B preview=\""@ + preview_text(body@, 160) + "\""@,
{
    let mut out: Vec<char> = Vec::new();
    push_head(&mut out, scope, method, path);
    push_str(&mut out, "parse_error in ");
    push_decimal(&mut out, elapsed_ms);
    push_str(&mut out, "ms error=\"");
    push_str(&mut out, error);
    push_str(&mut out, "\" body=");
    push_decimal(&mut out, body.len() as u128);
    push_str(&mut out, "B preview=\"");
    let p = preview(body, 160);
    push_str(&mut out, p.as_str());
    push_str(&mut out, "\"");
    assert(out@ =~= log_head(scope@, method@, path@) + "parse_error in "@ + decimal(
        elapsed_ms as nat,
    ) + "ms error=\""@ + error@ + "\" body="@ + decimal(body.len() as nat)
        + "B preview=\""@ + preview_text(body@, 160) + "\""@);
    string_of(&out)
}

/// A body excerpt in a log line is never longer than the limit plus the
/// three dots that mark a cut.
pub proof fn law_preview_bounded(body: Seq<char>, max_chars: nat)
    ensures
        preview_text(body, max_chars).len() <= max_chars + 3,
{
    reveal_strlit("...");
}

} // verus!
