//! Character-level text operations used by the request builders, the
//! lockfile parser and the log / error messages.
//!
//! Text is handled as `Vec<char>` inside the library; `Seq<char>` is its
//! model, which is also the model of `String` and `&str`.
use vstd::prelude::*;

verus! {

/// `char::is_whitespace`: the Unicode `White_Space` property.
pub open spec fn is_space(c: char) -> bool {
    ||| ('\u{9}' <= c && c <= '\u{d}')
    ||| c == ' '
    ||| c == '\u{85}'
    ||| c == '\u{a0}'
    ||| c == '\u{1680}'
    ||| ('\u{2000}' <= c && c <= '\u{200a}')
    ||| c == '\u{2028}'
    ||| c == '\u{2029}'
    ||| c == '\u{202f}'
    ||| c == '\u{205f}'
    ||| c == '\u{3000}'
}

/// `s` with its leading whitespace removed.
pub open spec fn trim_start(s: Seq<char>) -> Seq<char>
    decreases s.len(),
{
    if s.len() > 0 && is_space(s[0]) {
        trim_start(s.drop_first())
    } else {
        s
    }
}

/// `s` with its trailing whitespace removed.
pub open spec fn trim_end(s: Seq<char>) -> Seq<char>
    decreases s.len(),
{
    if s.len() > 0 && is_space(s.last()) {
        trim_end(s.drop_last())
    } else {
        s
    }
}

/// `str::trim`.
pub open spec fn trim(s: Seq<char>) -> Seq<char> {
    trim_end(trim_start(s))
}

/// `s` with every trailing `c` removed (`str::trim_end_matches` with a char).
pub open spec fn trim_end_char(s: Seq<char>, c: char) -> Seq<char>
    decreases s.len(),
{
    if s.len() > 0 && s.last() == c {
        trim_end_char(s.drop_last(), c)
    } else {
        s
    }
}

/// `s` with every leading `c` removed (`str::trim_start_matches` with a char).
pub open spec fn trim_start_char(s: Seq<char>, c: char) -> Seq<char>
    decreases s.len(),
{
    if s.len() > 0 && s[0] == c {
        trim_start_char(s.drop_first(), c)
    } else {
        s
    }
}

/// `str::starts_with`.
pub open spec fn starts_with(s: Seq<char>, prefix: Seq<char>) -> bool {
    prefix.len() <= s.len() && s.subrange(0, prefix.len() as int) == prefix
}

/// `str::contains` with a string pattern.
pub open spec fn contains_text(s: Seq<char>, pattern: Seq<char>) -> bool {
    exists|i: int|
        0 <= i && i + pattern.len() <= s.len() && #[trigger] s.subrange(i, i + pattern.len())
            == pattern
}

/// Index of the first `d` in `s`, if any.
pub open spec fn find_char(s: Seq<char>, d: char) -> Option<int>
    decreases s.len(),
{
    if s.len() == 0 {
        None
    } else if s[0] == d {
        Some(0)
    } else {
        match find_char(s.drop_first(), d) {
            Some(i) => Some(i + 1),
            None => None,
        }
    }
}

/// `str::split` with a char separator: the pieces between the separators,
/// empty pieces included.
pub open spec fn split_char(s: Seq<char>, d: char) -> Seq<Seq<char>>
    decreases s.len(),
{
    match find_char(s, d) {
        None => seq![s],
        Some(i) => {
            if 0 <= i < s.len() {
                seq![s.subrange(0, i)] + split_char(s.subrange(i + 1, s.len() as int), d)
            } else {
                seq![s]
            }
        },
    }
}

/// The first `n` characters of `s` (`chars().take(n)`).
pub open spec fn take_chars(s: Seq<char>, n: nat) -> Seq<char> {
    if n < s.len() {
        s.take(n as int)
    } else {
        s
    }
}

/// Digit character for `d < 10`.
pub open spec fn digit_char(d: nat) -> char {
    (48 + d) as char
}

/// Decimal representation of `n`, as `to_string` gives it for unsigned integers.
pub open spec fn decimal(n: nat) -> Seq<char>
    decreases n,
{
    if n < 10 {
        seq![digit_char(n)]
    } else {
        decimal(n / 10).push(digit_char(n % 10))
    }
}

/// Unreserved bytes that percent-encoding keeps as they are.
pub open spec fn is_unreserved(b: u8) -> bool {
    ||| (48 <= b && b <= 57)
    ||| (65 <= b && b <= 90)
    ||| (97 <= b && b <= 122)
    ||| b == 45
    ||| b == 46
    ||| b == 95
    ||| b == 126
}

/// Upper-case hexadecimal digit for `d < 16`.
pub open spec fn hex_digit(d: u8) -> char {
    if d < 10 {
        (48 + d) as char
    } else {
        (55 + d) as char
    }
}

/// Percent-encoding of a byte string: unreserved bytes are kept, every other
/// byte becomes `%XX` with upper-case hex digits.
pub open spec fn percent_encode(bytes: Seq<u8>) -> Seq<char>
    decreases bytes.len(),
{
    if bytes.len() == 0 {
        seq![]
    } else {
        let b = bytes[0];
        let head = if is_unreserved(b) {
            seq![b as char]
        } else {
            seq!['%', hex_digit(b / 16), hex_digit(b % 16)]
        };
        head + percent_encode(bytes.drop_first())
    }
}

/// The characters of `s`, in order.
pub fn chars_of(s: &str) -> (r: Vec<char>)
    ensures
        r@ == s@,
{
    broadcast use vstd::string::axiom_spec_iter;

    let mut out: Vec<char> = Vec::new();
    for c in it: s.chars()
        invariant
            out@ == it.seq().take(it.index()),
            it.seq() == s@,
    {
        out.push(c);
        assert(out@ =~= it.seq().take(it.index() + 1));
    }
    assert(out@ =~= s@);
    out
}

/// `String::push`: appends one character.
#[verifier::external_body]
fn push_char(s: &mut String, c: char)
    ensures
        final(s)@ == old(s)@.push(c),
{
    s.push(c);
}

/// A `String` made of the given characters.
pub fn string_of(v: &Vec<char>) -> (r: String)
    ensures
        r@ == v@,
{
    let mut out = String::new();
    let mut i: usize = 0;
    while i < v.len()
        invariant
            i <= v.len(),
            out@ == v@.take(i as int),
        decreases v.len() - i,
    {
        push_char(&mut out, v[i]);
        i += 1;
        assert(out@ =~= v@.take(i as int));
    }
    assert(v@.take(v@.len() as int) =~= v@);
    out
}

/// `urlencoding::encode`: percent-encodes the UTF-8 bytes of `s`, keeping
/// ASCII letters, digits and `-`, `.`, `_`, `~`.
#[verifier::external_body]
pub(crate) fn url_encode(s: &str) -> (r: String)
    ensures
        r@ == percent_encode(vstd::utf8::encode_utf8(s@)),
{
    urlencoding::encode(s).into_owned()
}

/// Whether `c` is whitespace.
pub fn is_space_char(c: char) -> (r: bool)
    ensures
        r == is_space(c),
{
    ('\u{9}' <= c && c <= '\u{d}') || c == ' ' || c == '\u{85}' || c == '\u{a0}' || c
        == '\u{1680}' || ('\u{2000}' <= c && c <= '\u{200a}') || c == '\u{2028}' || c
        == '\u{2029}' || c == '\u{202f}' || c == '\u{205f}' || c == '\u{3000}'
}

/// Characters `from..to` of `s`.
pub fn slice_chars(s: &Vec<char>, from: usize, to: usize) -> (r: Vec<char>)
    requires
        from <= to <= s.len(),
    ensures
        r@ == s@.subrange(from as int, to as int),
{
    let mut r: Vec<char> = Vec::new();
    let mut k: usize = from;
    while k < to
        invariant
            from <= k <= to <= s.len(),
            r@ == s@.subrange(from as int, k as int),
        decreases to - k,
    {
        r.push(s[k]);
        k += 1;
        assert(r@ =~= s@.subrange(from as int, k as int));
    }
    r
}

/// Appends all of `s` to `out`.
pub fn push_all(out: &mut Vec<char>, s: &Vec<char>)
    ensures
        final(out)@ == old(out)@ + s@,
{
    let ghost start = out@;
    let mut k: usize = 0;
    while k < s.len()
        invariant
            k <= s.len(),
            out@ == start + s@.subrange(0, k as int),
        decreases s.len() - k,
    {
        out.push(s[k]);
        k += 1;
        assert(out@ =~= start + s@.subrange(0, k as int));
    }
    assert(s@.subrange(0, s@.len() as int) =~= s@);
}

/// Appends the characters of `s` to `out`.
pub fn push_str(out: &mut Vec<char>, s: &str)
    ensures
        final(out)@ == old(out)@ + s@,
{
    let cs = chars_of(s);
    push_all(out, &cs);
}

/// `a` followed by `b`.
pub fn concat2(a: &str, b: &str) -> (r: String)
    ensures
        r@ == a@ + b@,
{
    let mut out: Vec<char> = Vec::new();
    push_str(&mut out, a);
    push_str(&mut out, b);
    string_of(&out)
}

/// `a`, `b` and `c` one after the other.
pub fn concat3(a: &str, b: &str, c: &str) -> (r: String)
    ensures
        r@ == a@ + b@ + c@,
{
    let mut out: Vec<char> = Vec::new();
    push_str(&mut out, a);
    push_str(&mut out, b);
    push_str(&mut out, c);
    string_of(&out)
}

/// `str::trim` on a character vector.
pub fn trim_chars(s: &Vec<char>) -> (r: Vec<char>)
    ensures
        r@ == trim(s@),
{
    let mut i: usize = 0;
    assert(s@.skip(0) =~= s@);
    while i < s.len() && is_space_char(s[i])
        invariant
            i <= s.len(),
            trim_start(s@) == trim_start(s@.skip(i as int)),
        decreases s.len() - i,
    {
        assert(s@.skip(i as int).drop_first() =~= s@.skip(i + 1));
        i += 1;
    }
    assert(trim_start(s@) == s@.skip(i as int));
    let mut j: usize = s.len();
    assert(s@.skip(i as int) =~= s@.subrange(i as int, j as int));
    while j > i && is_space_char(s[j - 1])
        invariant
            i <= j <= s.len(),
            trim(s@) == trim_end(s@.subrange(i as int, j as int)),
        decreases j - i,
    {
        assert(s@.subrange(i as int, j as int).drop_last() =~= s@.subrange(i as int, j - 1));
        j -= 1;
    }
    slice_chars(s, i, j)
}

/// `str::trim` on a string slice.
pub fn trim_str(s: &str) -> (r: Vec<char>)
    ensures
        r@ == trim(s@),
{
    let cs = chars_of(s);
    trim_chars(&cs)
}

/// `s` without its trailing `c`s.
pub fn trim_end_matching(s: &Vec<char>, c: char) -> (r: Vec<char>)
    ensures
        r@ == trim_end_char(s@, c),
{
    let mut j: usize = s.len();
    assert(s@.subrange(0, j as int) =~= s@);
    while j > 0 && s[j - 1] == c
        invariant
            j <= s.len(),
            trim_end_char(s@, c) == trim_end_char(s@.subrange(0, j as int), c),
        decreases j,
    {
        assert(s@.subrange(0, j as int).drop_last() =~= s@.subrange(0, j - 1));
        j -= 1;
    }
    slice_chars(s, 0, j)
}

/// `s` without its leading `c`s.
pub fn trim_start_matching(s: &Vec<char>, c: char) -> (r: Vec<char>)
    ensures
        r@ == trim_start_char(s@, c),
{
    let mut i: usize = 0;
    assert(s@.skip(0) =~= s@);
    while i < s.len() && s[i] == c
        invariant
            i <= s.len(),
            trim_start_char(s@, c) == trim_start_char(s@.skip(i as int), c),
        decreases s.len() - i,
    {
        assert(s@.skip(i as int).drop_first() =~= s@.skip(i + 1));
        i += 1;
    }
    assert(s@.skip(i as int) =~= s@.subrange(i as int, s@.len() as int));
    slice_chars(s, i, s.len())
}

/// Whether two character sequences are equal.
pub fn chars_equal(a: &Vec<char>, b: &Vec<char>) -> (r: bool)
    ensures
        r == (a@ == b@),
{
    if a.len() != b.len() {
        return false;
    }
    let mut k: usize = 0;
    while k < a.len()
        invariant
            a.len() == b.len(),
            k <= a.len(),
            forall|m: int| 0 <= m < k ==> a@[m] == b@[m],
        decreases a.len() - k,
    {
        if a[k] != b[k] {
            return false;
        }
        k += 1;
    }
    assert(a@ =~= b@);
    true
}

/// Whether two texts are equal.
pub fn str_eq(a: &str, b: &str) -> (r: bool)
    ensures
        r == (a@ == b@),
{
    let x = chars_of(a);
    let y = chars_of(b);
    chars_equal(&x, &y)
}

/// Whether `s` starts with `prefix`.
pub fn starts_with_chars(s: &Vec<char>, prefix: &Vec<char>) -> (r: bool)
    ensures
        r == starts_with(s@, prefix@),
{
    if prefix.len() > s.len() {
        return false;
    }
    let mut k: usize = 0;
    while k < prefix.len()
        invariant
            prefix.len() <= s.len(),
            k <= prefix.len(),
            forall|m: int| 0 <= m < k ==> s@[m] == prefix@[m],
        decreases prefix.len() - k,
    {
        if s[k] != prefix[k] {
            assert(s@.subrange(0, prefix@.len() as int)[k as int] != prefix@[k as int]);
            return false;
        }
        k += 1;
    }
    assert(s@.subrange(0, prefix@.len() as int) =~= prefix@);
    true
}

/// Whether `s` starts with the text `prefix`.
pub fn starts_with_str(s: &Vec<char>, prefix: &str) -> (r: bool)
    ensures
        r == starts_with(s@, prefix@),
{
    let p = chars_of(prefix);
    starts_with_chars(s, &p)
}

/// Whether `pattern` occurs in `s`.
pub fn contains_chars(s: &Vec<char>, pattern: &Vec<char>) -> (r: bool)
    ensures
        r == contains_text(s@, pattern@),
{
    if pattern.len() > s.len() {
        return false;
    }
    if pattern.len() == 0 {
        assert(s@.subrange(0int, 0int + pattern@.len()) =~= pattern@);
        return true;
    }
    let last = s.len() - pattern.len();
    let mut i: usize = 0;
    while i <= last
        invariant
            last + pattern.len() == s.len(),
            pattern.len() > 0,
            i <= last + 1,
            forall|m: int|
                0 <= m < i ==> #[trigger] s@.subrange(m, m + pattern@.len()) != pattern@,
        decreases last + 1 - i,
    {
        let mut k: usize = 0;
        let mut same = true;
        while k < pattern.len()
            invariant
                i <= last,
                last + pattern.len() == s.len(),
                k <= pattern.len(),
                same ==> forall|m: int| 0 <= m < k ==> s@[i + m] == pattern@[m],
                !same ==> s@.subrange(i as int, i + pattern@.len()) != pattern@,
            decreases pattern.len() - k,
        {
            if same && s[i + k] != pattern[k] {
                assert(s@.subrange(i as int, i + pattern@.len())[k as int] != pattern@[k as int]);
                same = false;
            }
            k += 1;
        }
        if same {
            assert(s@.subrange(i as int, i + pattern@.len()) =~= pattern@);
            return true;
        }
        i += 1;
    }
    assert forall|m: int|
        0 <= m && m + pattern@.len() <= s@.len() implies #[trigger] s@.subrange(
        m,
        m + pattern@.len(),
    ) != pattern@ by {
        assert(m < i);
    }
    false
}

/// The first `n` characters of `s`.
pub fn take_first(s: &Vec<char>, n: usize) -> (r: Vec<char>)
    ensures
        r@ == take_chars(s@, n as nat),
{
    if n < s.len() {
        slice_chars(s, 0, n)
    } else {
        assert(s@.subrange(0, s@.len() as int) =~= s@);
        slice_chars(s, 0, s.len())
    }
}

/// Decimal digit character.
fn digit(d: u8) -> (r: char)
    requires
        d < 10,
    ensures
        r == digit_char(d as nat),
{
    (48u8 + d) as char
}

/// Decimal representation of `n`.
pub fn decimal_chars(n: u128) -> (r: Vec<char>)
    ensures
        r@ == decimal(n as nat),
    decreases n,
{
    if n < 10 {
        let mut v: Vec<char> = Vec::new();
        v.push(digit(n as u8));
        assert(v@ =~= seq![digit_char(n as nat)]);
        v
    } else {
        let mut v = decimal_chars(n / 10);
        v.push(digit((n % 10) as u8));
        v
    }
}

/// Decimal representation of `n` as a `String` (`to_string`).
pub fn decimal_string(n: u128) -> (r: String)
    ensures
        r@ == decimal(n as nat),
{
    let v = decimal_chars(n);
    string_of(&v)
}

} // verus!

verus! {

proof fn lemma_find_char_at(t: Seq<char>, d: char, j: int)
    requires
        0 <= j < t.len(),
        t[j] == d,
        forall|m: int| 0 <= m < j ==> t[m] != d,
    ensures
        find_char(t, d) == Some(j),
    decreases j,
{
    if j > 0 {
        assert forall|m: int| 0 <= m < j - 1 implies t.drop_first()[m] != d by {
            assert(t.drop_first()[m] == t[m + 1]);
        }
        lemma_find_char_at(t.drop_first(), d, j - 1);
    }
}

proof fn lemma_find_char_absent(t: Seq<char>, d: char)
    requires
        forall|m: int| 0 <= m < t.len() ==> t[m] != d,
    ensures
        find_char(t, d) is None,
    decreases t.len(),
{
    if t.len() > 0 {
        assert forall|m: int| 0 <= m < t.len() - 1 implies t.drop_first()[m] != d by {
            assert(t.drop_first()[m] == t[m + 1]);
        }
        lemma_find_char_absent(t.drop_first(), d);
    }
}

/// The characters percent-encoded text is made of: ASCII letters and
/// digits, `-`, `.`, `_`, `~` and `%`.
pub open spec fn url_safe_char(c: char) -> bool {
    ||| ('0' <= c && c <= '9')
    ||| ('A' <= c && c <= 'Z')
    ||| ('a' <= c && c <= 'z')
    ||| c == '-'
    ||| c == '.'
    ||| c == '_'
    ||| c == '~'
    ||| c == '%'
}

/// Percent-encoded text holds only URL-safe characters, so an encoded
/// segment never carries a `/`, `?`, `&`, `=` or `#` of its own.
pub proof fn law_percent_encoded_is_url_safe(bytes: Seq<u8>)
    ensures
        forall|i: int|
            0 <= i < percent_encode(bytes).len() ==> url_safe_char(#[trigger] percent_encode(bytes)[i]),
    decreases bytes.len(),
{
    if bytes.len() > 0 {
        law_percent_encoded_is_url_safe(bytes.drop_first());
        let b = bytes[0];
        let head = if is_unreserved(b) {
            seq![b as char]
        } else {
            seq!['%', hex_digit(b / 16), hex_digit(b % 16)]
        };
        let rest = percent_encode(bytes.drop_first());
        assert(percent_encode(bytes) == head + rest);
        assert forall|i: int| 0 <= i < head.len() implies url_safe_char(#[trigger] head[i]) by {
            assert(b / 16 < 16 && b % 16 < 16);
        }
        assert forall|i: int| 0 <= i < percent_encode(bytes).len() implies url_safe_char(
            #[trigger] percent_encode(bytes)[i],
        ) by {
            if i < head.len() {
                assert(percent_encode(bytes)[i] == head[i]);
            } else {
                assert(percent_encode(bytes)[i] == rest[i - head.len()]);
            }
        }
    }
}

proof fn lemma_trim_start_shape(s: Seq<char>)
    ensures
        trim_start(s).len() == 0 || !is_space(trim_start(s)[0]),
    decreases s.len(),
{
    if s.len() > 0 && is_space(s[0]) {
        lemma_trim_start_shape(s.drop_first());
    }
}

proof fn lemma_trim_end_shape(t: Seq<char>)
    ensures
        trim_end(t).len() <= t.len(),
        trim_end(t) =~= t.take(trim_end(t).len() as int),
        trim_end(t).len() == 0 || !is_space(trim_end(t).last()),
        t.len() > 0 && !is_space(t[0]) ==> trim_end(t).len() > 0,
    decreases t.len(),
{
    if t.len() > 0 && is_space(t.last()) {
        lemma_trim_end_shape(t.drop_last());
        if t.len() > 1 && !is_space(t[0]) {
            assert(t.drop_last()[0] == t[0]);
        }
        assert(t.drop_last().take(trim_end(t).len() as int) =~= t.take(trim_end(t).len() as int));
    } else {
        assert(t.take(t.len() as int) =~= t);
    }
}

/// Trimming trimmed text changes nothing.
pub proof fn law_trim_idempotent(s: Seq<char>)
    ensures
        trim(trim(s)) == trim(s),
{
    let u = trim_start(s);
    lemma_trim_start_shape(s);
    lemma_trim_end_shape(u);
    let t = trim(s);
    if t.len() > 0 {
        assert(t[0] == u[0]);
        assert(trim_start(t) == t);
        assert(trim_end(t) == t);
    } else {
        assert(trim_start(t) == t);
    }
}

/// `s` holds no `d`.
pub open spec fn free_of(s: Seq<char>, d: char) -> bool {
    forall|m: int| 0 <= m < s.len() ==> s[m] != d
}

/// Text without the separator is one piece.
pub proof fn lemma_split_single(a: Seq<char>, d: char)
    requires
        free_of(a, d),
    ensures
        split_char(a, d) == seq![a],
{
    lemma_find_char_absent(a, d);
}

/// A piece without the separator, the separator, then the rest: the piece
/// comes first, then the pieces of the rest.
pub proof fn lemma_split_cons(a: Seq<char>, rest: Seq<char>, d: char)
    requires
        free_of(a, d),
    ensures
        split_char(a + seq![d] + rest, d) == seq![a] + split_char(rest, d),
{
    let t = a + seq![d] + rest;
    assert(t[a.len() as int] == d);
    assert forall|m: int| 0 <= m < a.len() implies t[m] != d by {
        assert(t[m] == a[m]);
    }
    lemma_find_char_at(t, d, a.len() as int);
    assert(t.subrange(0, a.len() as int) =~= a);
    assert(t.subrange(a.len() as int + 1, t.len() as int) =~= rest);
}

/// `str::split` with a char separator.
pub fn split_chars(s: &Vec<char>, d: char) -> (r: Vec<Vec<char>>)
    ensures
        r@.len() == split_char(s@, d).len(),
        forall|i: int| 0 <= i < r@.len() ==> #[trigger] r@[i]@ == split_char(s@, d)[i],
{
    let mut r: Vec<Vec<char>> = Vec::new();
    let ghost mut done: Seq<Seq<char>> = seq![];
    let mut start: usize = 0;
    let mut k: usize = 0;
    assert(s@.subrange(0, s@.len() as int) =~= s@);
    while k < s.len()
        invariant
            start <= k <= s.len(),
            forall|m: int| start <= m < k ==> s@[m] != d,
            done + split_char(s@.subrange(start as int, s@.len() as int), d) == split_char(s@, d),
            r@.len() == done.len(),
            forall|i: int| 0 <= i < r@.len() ==> #[trigger] r@[i]@ == done[i],
        decreases s.len() - k,
    {
        if s[k] == d {
            let ghost t = s@.subrange(start as int, s@.len() as int);
            proof {
                assert forall|m: int| 0 <= m < k - start implies t[m] != d by {
                    assert(t[m] == s@[start + m]);
                }
                lemma_find_char_at(t, d, k - start);
                assert(t.subrange(0, k - start) =~= s@.subrange(start as int, k as int));
                assert(t.subrange(k - start + 1, t.len() as int) =~= s@.subrange(
                    k + 1,
                    s@.len() as int,
                ));
                assert(split_char(t, d) == seq![s@.subrange(start as int, k as int)] + split_char(
                    s@.subrange(k + 1, s@.len() as int),
                    d,
                ));
            }
            let piece = slice_chars(s, start, k);
            r.push(piece);
            proof {
                assert(done.push(s@.subrange(start as int, k as int)) + split_char(
                    s@.subrange(k + 1, s@.len() as int),
                    d,
                ) =~= done + split_char(t, d));
                done = done.push(s@.subrange(start as int, k as int));
            }
            start = k + 1;
        }
        k += 1;
    }
    let ghost t = s@.subrange(start as int, s@.len() as int);
    proof {
        assert forall|m: int| 0 <= m < t.len() implies t[m] != d by {
            assert(t[m] == s@[start + m]);
        }
        lemma_find_char_absent(t, d);
    }
    let last = slice_chars(s, start, s.len());
    r.push(last);
    proof {
        assert(done.push(t) =~= done + split_char(t, d));
        done = done.push(t);
    }
    r
}

} // verus!
