//! Character-level helpers on strings: whitespace (as `char::is_whitespace`
//! defines it), tokens, trimming, ASCII hex digits and decimal numbers.
use vstd::prelude::*;

verus! {

/// An optional string by its characters.
pub open spec fn opt_view(s: &Option<String>) -> Option<Seq<char>> {
    match s {
        Some(t) => Some(t@),
        None => None,
    }
}

/// The Unicode `White_Space` property, which is what `char::is_whitespace` tests.
pub open spec fn is_space(c: char) -> bool {
    let u = c as u32;
    ||| 0x09 <= u <= 0x0D
    ||| u == 0x20
    ||| u == 0x85
    ||| u == 0xA0
    ||| u == 0x1680
    ||| 0x2000 <= u <= 0x200A
    ||| u == 0x2028
    ||| u == 0x2029
    ||| u == 0x202F
    ||| u == 0x205F
    ||| u == 0x3000
}

/// Index of the first non-space character at or after `i` (or the length).
pub open spec fn skip_space(s: Seq<char>, i: int) -> int
    decreases s.len() - i,
{
    if i < 0 || i >= s.len() {
        s.len() as int
    } else if is_space(s[i]) {
        skip_space(s, i + 1)
    } else {
        i
    }
}

/// Index of the first space character at or after `i` (or the length).
pub open spec fn skip_word(s: Seq<char>, i: int) -> int
    decreases s.len() - i,
{
    if i < 0 || i >= s.len() {
        s.len() as int
    } else if is_space(s[i]) {
        i
    } else {
        skip_word(s, i + 1)
    }
}

/// End of `s.take(j)` once its trailing spaces are removed.
pub open spec fn trim_end_at(s: Seq<char>, j: int) -> int
    decreases j,
{
    if j <= 0 || j > s.len() {
        0
    } else if is_space(s[j - 1]) {
        trim_end_at(s, j - 1)
    } else {
        j
    }
}

/// The first whitespace-separated word of `s`, as `split_whitespace().next()` gives it.
pub open spec fn first_word(s: Seq<char>) -> Option<Seq<char>> {
    let a = skip_space(s, 0);
    if a >= s.len() {
        None
    } else {
        Some(s.subrange(a, skip_word(s, a)))
    }
}

/// `s` without leading and trailing whitespace, as `str::trim` gives it.
pub open spec fn trimmed(s: Seq<char>) -> Seq<char> {
    let a = skip_space(s, 0);
    if a >= s.len() {
        Seq::empty()
    } else {
        s.subrange(a, trim_end_at(s, s.len() as int))
    }
}

proof fn lemma_skip_space_bounds(s: Seq<char>, i: int)
    requires
        0 <= i <= s.len(),
    ensures
        i <= skip_space(s, i) <= s.len(),
        skip_space(s, i) < s.len() ==> !is_space(s[skip_space(s, i)]),
    decreases s.len() - i,
{
    if i < s.len() && is_space(s[i]) {
        lemma_skip_space_bounds(s, i + 1);
    }
}

proof fn lemma_skip_word_bounds(s: Seq<char>, i: int)
    requires
        0 <= i <= s.len(),
    ensures
        i <= skip_word(s, i) <= s.len(),
    decreases s.len() - i,
{
    if i < s.len() && !is_space(s[i]) {
        lemma_skip_word_bounds(s, i + 1);
    }
}

proof fn lemma_trim_end_bounds(s: Seq<char>, j: int)
    requires
        0 <= j <= s.len(),
    ensures
        0 <= trim_end_at(s, j) <= j,
        trim_end_at(s, j) > 0 ==> !is_space(s[trim_end_at(s, j) - 1]),
    decreases j,
{
    if j > 0 && is_space(s[j - 1]) {
        lemma_trim_end_bounds(s, j - 1);
    }
}

/// Calls `String::push`: the contract claims that `c` is appended to `s`.
#[verifier::external_body]
pub(crate) fn push_char(s: &mut String, c: char)
    ensures
        final(s)@ == old(s)@.push(c),
{
    s.push(c)
}


/// Skipping spaces from `i` stops at `e` when `[i, e)` are spaces and `e` is not.
pub proof fn lemma_skip_space_to(x: Seq<char>, i: int, e: int)
    requires
        0 <= i <= e <= x.len(),
        forall|m: int| i <= m < e ==> is_space(#[trigger] x[m]),
        e < x.len() ==> !is_space(x[e]),
    ensures
        skip_space(x, i) == e,
    decreases e - i,
{
    if i < e {
        lemma_skip_space_to(x, i + 1, e);
    }
}

/// Trimming the end of `x.take(j)` stops at `e` when `[e, j)` are spaces
/// and `e - 1` is not.
pub proof fn lemma_trim_end_to(x: Seq<char>, e: int, j: int)
    requires
        0 < e <= j <= x.len(),
        forall|m: int| e <= m < j ==> is_space(#[trigger] x[m]),
        !is_space(x[e - 1]),
    ensures
        trim_end_at(x, j) == e,
    decreases j,
{
    if j > e {
        lemma_trim_end_to(x, e, j - 1);
    }
}

/// Whether `c` is a whitespace character (`char::is_whitespace`).
pub fn is_space_char(c: char) -> (b: bool)
    ensures
        b == is_space(c),
{
    let u: u32 = c as u32;
    (0x09 <= u && u <= 0x0D) || u == 0x20 || u == 0x85 || u == 0xA0 || u == 0x1680 || (0x2000 <= u
        && u <= 0x200A) || u == 0x2028 || u == 0x2029 || u == 0x202F || u == 0x205F || u == 0x3000
}

/// Index of the first non-space character of `s` at or after `from`.
fn skip_space_exec(s: &str, from: usize) -> (r: usize)
    requires
        from <= s@.len(),
    ensures
        r == skip_space(s@, from as int),
{
    let n = s.unicode_len();
    let mut i = from;
    while i < n
        invariant
            n == s@.len(),
            from <= i <= n,
            skip_space(s@, from as int) == skip_space(s@, i as int),
        decreases n - i,
    {
        if !is_space_char(s.get_char(i)) {
            return i;
        }
        i = i + 1;
    }
    i
}

/// Index of the first space character of `s` at or after `from`.
fn skip_word_exec(s: &str, from: usize) -> (r: usize)
    requires
        from <= s@.len(),
    ensures
        r == skip_word(s@, from as int),
{
    let n = s.unicode_len();
    let mut i = from;
    while i < n
        invariant
            n == s@.len(),
            from <= i <= n,
            skip_word(s@, from as int) == skip_word(s@, i as int),
        decreases n - i,
    {
        if is_space_char(s.get_char(i)) {
            return i;
        }
        i = i + 1;
    }
    i
}

/// The first whitespace-separated word of `s`, if there is one.
pub fn first_word_of(s: &str) -> (r: Option<String>)
    ensures
        r matches Some(w) ==> first_word(s@) == Some(w@),
        r is None ==> first_word(s@) is None,
{
    let a = skip_space_exec(s, 0);
    proof {
        lemma_skip_space_bounds(s@, 0);
    }
    if a >= s.unicode_len() {
        None
    } else {
        let b = skip_word_exec(s, a);
        proof {
            lemma_skip_word_bounds(s@, a as int);
        }
        Some(String::from_str(s.substring_char(a, b)))
    }
}

/// `s` with leading and trailing whitespace removed.
pub fn trim_spaces(s: &str) -> (r: String)
    ensures
        r@ == trimmed(s@),
{
    let n = s.unicode_len();
    let a = skip_space_exec(s, 0);
    proof {
        lemma_skip_space_bounds(s@, 0);
    }
    if a >= n {
        return String::new();
    }
    let mut j = n;
    while j > 0
        invariant
            n == s@.len(),
            j <= n,
            trim_end_at(s@, n as int) == trim_end_at(s@, j as int),
        ensures
            j == trim_end_at(s@, n as int),
        decreases j,
    {
        if !is_space_char(s.get_char(j - 1)) {
            break;
        }
        j = j - 1;
    }
    proof {
        lemma_trim_end_bounds(s@, n as int);
        // a non-space character at index a keeps the end past it
        lemma_trim_end_past(s@, n as int, a as int);
    }
    String::from_str(s.substring_char(a, j))
}

proof fn lemma_trim_end_past(s: Seq<char>, j: int, a: int)
    requires
        0 <= a < j <= s.len(),
        !is_space(s[a]),
    ensures
        a < trim_end_at(s, j),
    decreases j,
{
    if is_space(s[j - 1]) {
        lemma_trim_end_past(s, j - 1, a);
    }
}


/// An ASCII hex digit of either case (`char::is_ascii_hexdigit`).
pub open spec fn is_hex_char(c: char) -> bool {
    let u = c as u32;
    ||| 0x30 <= u <= 0x39
    ||| 0x41 <= u <= 0x46
    ||| 0x61 <= u <= 0x66
}

/// ASCII upper-case letters mapped to lower case, every other character kept.
pub open spec fn ascii_lower(c: char) -> char {
    let u = c as u32;
    if 0x41 <= u <= 0x5A {
        (u + 32) as char
    } else {
        c
    }
}

/// Whether every character of `s` is ASCII.
pub open spec fn is_ascii_text(s: Seq<char>) -> bool {
    forall|k: int| 0 <= k < s.len() ==> (#[trigger] s[k] as u32) < 128
}

/// Lower-casing ASCII letters neither makes nor unmakes a hex digit.
pub proof fn lemma_hex_char_ascii_lower(c: char)
    ensures
        is_hex_char(ascii_lower(c)) == is_hex_char(c),
{
    let u = c as u32;
    if 0x41 <= u <= 0x5A {
        assert(((u + 32) as char) as u32 == u + 32);
    }
}

/// Whether `a` and `b` hold the same characters.
pub fn str_eq(a: &str, b: &str) -> (r: bool)
    ensures
        r == (a@ == b@),
{
    let n = a.unicode_len();
    if n != b.unicode_len() {
        return false;
    }
    let mut i: usize = 0;
    while i < n
        invariant
            n == a@.len(),
            n == b@.len(),
            i <= n,
            forall|k: int| 0 <= k < i ==> a@[k] == b@[k],
        decreases n - i,
    {
        if a.get_char(i) != b.get_char(i) {
            return false;
        }
        i = i + 1;
    }
    assert(a@ =~= b@);
    true
}

/// Whether `s` is exactly `n` ASCII hex digits.
pub fn is_hex_of_len(s: &str, n: usize) -> (r: bool)
    ensures
        r == (s@.len() == n && forall|k: int| 0 <= k < s@.len() ==> is_hex_char(#[trigger] s@[k])),
{
    let len = s.unicode_len();
    if len != n {
        return false;
    }
    let mut i: usize = 0;
    while i < len
        invariant
            len == s@.len(),
            i <= len,
            forall|k: int| 0 <= k < i ==> is_hex_char(#[trigger] s@[k]),
        decreases len - i,
    {
        let u: u32 = s.get_char(i) as u32;
        if !((0x30 <= u && u <= 0x39) || (0x41 <= u && u <= 0x46) || (0x61 <= u && u <= 0x66)) {
            return false;
        }
        i = i + 1;
    }
    true
}

} // verus!
