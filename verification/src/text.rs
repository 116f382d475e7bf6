//! Character-level helpers over `Seq<char>`, their executable counterparts on
//! character vectors and strings, and the few std and toml_edit calls that
//! turn text into other text.
use vstd::prelude::*;

verus! {

// ---------------------------------------------------------------------------
// Specifications
// ---------------------------------------------------------------------------

/// `p` is a prefix of `s`.
pub open spec fn has_prefix(s: Seq<char>, p: Seq<char>) -> bool {
    p.len() <= s.len() && s.subrange(0, p.len() as int) == p
}

/// `p` is a suffix of `s`.
pub open spec fn has_suffix(s: Seq<char>, p: Seq<char>) -> bool {
    p.len() <= s.len() && s.subrange(s.len() - p.len(), s.len() as int) == p
}

/// `p` occurs in `s` starting at index `i`.
pub open spec fn occurs_at(s: Seq<char>, p: Seq<char>, i: int) -> bool {
    0 <= i && i + p.len() <= s.len() && s.subrange(i, i + p.len()) == p
}

/// `p` occurs somewhere in `s`.
pub open spec fn has_infix(s: Seq<char>, p: Seq<char>) -> bool {
    exists|i: int| occurs_at(s, p, i)
}

/// Number of occurrences of `c` in `s`.
pub open spec fn count_char(s: Seq<char>, c: char) -> nat
    decreases s.len(),
{
    if s.len() == 0 {
        0
    } else {
        count_char(s.drop_last(), c) + if s.last() == c { 1nat } else { 0nat }
    }
}

/// Index of the last occurrence of `c` in `s`, or -1 when there is none.
pub open spec fn last_index_of(s: Seq<char>, c: char) -> int
    decreases s.len(),
{
    if s.len() == 0 {
        -1
    } else if s.last() == c {
        s.len() - 1
    } else {
        last_index_of(s.drop_last(), c)
    }
}

/// Index of the first occurrence of `c` in `s`, or -1 when there is none.
pub open spec fn first_index_of(s: Seq<char>, c: char) -> int {
    if s.contains(c) {
        choose|i: int| 0 <= i < s.len() && s[i] == c && forall|j: int| 0 <= j < i ==> s[j] != c
    } else {
        -1
    }
}

/// The concatenation of `parts` with `sep` between consecutive parts.
pub open spec fn join(parts: Seq<Seq<char>>, sep: Seq<char>) -> Seq<char>
    decreases parts.len(),
{
    if parts.len() == 0 {
        Seq::empty()
    } else if parts.len() == 1 {
        parts[0]
    } else {
        join(parts.drop_last(), sep) + sep + parts.last()
    }
}

/// ASCII case folding of one character (other characters are unchanged).
pub open spec fn ascii_lower(c: char) -> char {
    if 'A' <= c && c <= 'Z' {
        ((c as u32) + 32) as char
    } else {
        c
    }
}

/// An ASCII letter.
pub open spec fn is_ascii_alpha(c: char) -> bool {
    ('a' <= c && c <= 'z') || ('A' <= c && c <= 'Z')
}

/// An ASCII digit.
pub open spec fn is_ascii_digit(c: char) -> bool {
    '0' <= c && c <= '9'
}

/// An ASCII letter or digit.
pub open spec fn is_ascii_alnum(c: char) -> bool {
    is_ascii_alpha(c) || is_ascii_digit(c)
}

/// Every character of `s` is ASCII.
pub open spec fn is_ascii_text(s: Seq<char>) -> bool {
    forall|i: int| 0 <= i < s.len() ==> (s[i] as u32) < 128
}

/// `s` with `A`..`Z` turned into `a`..`z`.
pub open spec fn ascii_lowered(s: Seq<char>) -> Seq<char> {
    s.map_values(|c: char| ascii_lower(c))
}

/// Equality of two texts up to ASCII case.
pub open spec fn eq_ignore_ascii_case(a: Seq<char>, b: Seq<char>) -> bool {
    a.len() == b.len() && forall|i: int| 0 <= i < a.len() ==> ascii_lower(a[i]) == ascii_lower(b[i])
}

// ---------------------------------------------------------------------------
// Names for results of std and toml_edit functions
// ---------------------------------------------------------------------------

/// What `str::to_lowercase` returns (full Unicode lower-casing).
pub uninterp spec fn lowercase_of(s: Seq<char>) -> Seq<char>;

/// What `format!("{:?}", s)` returns for a string slice: the quoted, escaped text.
pub uninterp spec fn debug_repr_of(s: Seq<char>) -> Seq<char>;

/// What toml_edit prints for a string value holding `s` (quotes included).
pub uninterp spec fn toml_string_of(s: Seq<char>) -> Seq<char>;

/// What toml_edit prints for a key named `s` (bare, or quoted when needed).
pub uninterp spec fn toml_key_of(s: Seq<char>) -> Seq<char>;

/// What `char::is_alphanumeric` answers (Unicode alphabetic or numeric).
pub uninterp spec fn alphanumeric_char(c: char) -> bool;

/// What `char::is_alphabetic` answers (Unicode alphabetic).
pub uninterp spec fn alphabetic_char(c: char) -> bool;

/// What `char::is_numeric` answers (Unicode numeric).
pub uninterp spec fn numeric_char(c: char) -> bool;

/// What `char::to_uppercase` yields for `c`, collected into text.
pub uninterp spec fn char_upper_of(c: char) -> Seq<char>;

/// What `char::is_lowercase` answers (Unicode lowercase).
pub uninterp spec fn lowercase_char(c: char) -> bool;

/// What `Path::extension` gives for the path `p`, lossily turned into text.
pub uninterp spec fn path_extension_of(p: Seq<char>) -> Option<Seq<char>>;

/// What `Path::starts_with` answers for the path `p` and the base `base`
/// (whole components are compared).
pub uninterp spec fn path_starts_with_of(p: Seq<char>, base: Seq<char>) -> bool;

/// What `Path::parent` gives for the path `p`, lossily turned into text.
pub uninterp spec fn path_parent_of(p: Seq<char>) -> Option<Seq<char>>;

/// What `Path::join` gives for `base` and `p`, lossily turned into text.
pub uninterp spec fn path_join_of(base: Seq<char>, p: Seq<char>) -> Seq<char>;

// ---------------------------------------------------------------------------
// Trusted calls
// ---------------------------------------------------------------------------

/// The characters of `s`, in order.
pub fn chars_of(s: &str) -> (r: Vec<char>)
    ensures
        r@ == s@,
{
    broadcast use vstd::string::axiom_spec_iter;
    let mut out: Vec<char> = Vec::new();
    for c in it: s.chars()
        invariant
            it.seq() == s@,
            out@ == it.seq().subrange(0, it.index() as int),
    {
        out.push(c);
    }
    out
}

/// Calls `String::push`: appends one character.
#[verifier::external_body]
pub fn push_char(s: &mut String, c: char)
    ensures
        final(s)@ == old(s)@.push(c),
{
    s.push(c)
}

/// Calls `str::to_lowercase`; the result is named `lowercase_of`. Of ASCII
/// text the contract also claims what Unicode's lower-case mapping, which
/// the documentation names, gives there: `A`..`Z` become `a`..`z` and every
/// other character stays. Of other text it claims nothing more.
#[verifier::external_body]
pub fn to_lowercase(s: &str) -> (r: String)
    ensures
        r@ == lowercase_of(s@),
        is_ascii_text(s@) ==> r@ == ascii_lowered(s@),
{
    s.to_lowercase()
}

/// Formats `s` with `{:?}` (std's `Debug` for `str`); the result is named `debug_repr_of`.
#[verifier::external_body]
pub fn debug_repr(s: &str) -> (r: String)
    ensures
        r@ == debug_repr_of(s@),
{
    format!("{:?}", s)
}

/// A character of a bare TOML key: an ASCII letter or digit, `-` or `_`.
pub open spec fn bare_key_char(c: char) -> bool {
    is_ascii_alnum(c) || c == '-' || c == '_'
}

/// A character that toml_edit writes as it is inside a basic string and
/// that alone never calls for another string form: a bare key character,
/// `.`, `/`, a space or `:`.
pub open spec fn plain_value_char(c: char) -> bool {
    bare_key_char(c) || c == '.' || c == '/' || c == ' ' || c == ':'
}

/// Displays `toml_edit::Value::from(s)`: the TOML encoding of a string value,
/// named `toml_string_of`. A text made only of plain characters is written
/// between double quotes as it is (toml_writer's string metrics mark it a
/// subset of every form, and the default form is then the basic string).
#[verifier::external_body]
pub fn toml_string_repr(s: &str) -> (r: String)
    ensures
        r@ == toml_string_of(s@),
        (forall|i: int| 0 <= i < s@.len() ==> plain_value_char(#[trigger] s@[i])) ==> r@ == seq!['"']
            + s@ + seq!['"'],
{
    toml_edit::Value::from(s).to_string()
}

/// Displays `toml_edit::Key::new(s)`: the TOML encoding of a key, named
/// `toml_key_of`. A non-empty key made only of bare key characters is
/// written unquoted, as it is.
#[verifier::external_body]
pub fn toml_key_repr(s: &str) -> (r: String)
    ensures
        r@ == toml_key_of(s@),
        s@.len() > 0 && (forall|i: int| 0 <= i < s@.len() ==> bare_key_char(#[trigger] s@[i])) ==> r@ == s@,
{
    toml_edit::Key::new(s).to_string()
}

/// Calls `char::is_alphanumeric`; the answer is named `alphanumeric_char`.
#[verifier::external_body]
pub fn is_alphanumeric(c: char) -> (r: bool)
    ensures
        r == alphanumeric_char(c),
{
    c.is_alphanumeric()
}

/// Calls `char::is_alphabetic`; the answer is named `alphabetic_char`.
#[verifier::external_body]
pub fn is_alphabetic(c: char) -> (r: bool)
    ensures
        r == alphabetic_char(c),
{
    c.is_alphabetic()
}

/// Calls `char::is_numeric`; the answer is named `numeric_char`.
#[verifier::external_body]
pub fn is_numeric(c: char) -> (r: bool)
    ensures
        r == numeric_char(c),
{
    c.is_numeric()
}

/// Calls `char::to_uppercase` and collects the characters; the result is
/// named `char_upper_of`.
#[verifier::external_body]
pub fn char_to_uppercase(c: char) -> (r: String)
    ensures
        r@ == char_upper_of(c),
{
    c.to_uppercase().collect::<String>()
}

/// Calls `char::is_lowercase`; the answer is named `lowercase_char`.
#[verifier::external_body]
pub fn is_lowercase(c: char) -> (r: bool)
    ensures
        r == lowercase_char(c),
{
    c.is_lowercase()
}

/// Calls `Path::extension` on `p` and converts the extension lossily to text;
/// the result is named `path_extension_of`.
#[verifier::external_body]
pub fn path_extension(p: &str) -> (r: Option<String>)
    ensures
        r.deep_view() == path_extension_of(p@),
{
    match std::path::Path::new(p).extension() {
        Some(e) => Some(e.to_string_lossy().to_string()),
        None => None,
    }
}

/// Calls `Path::starts_with`; the answer is named `path_starts_with_of`.
#[verifier::external_body]
pub fn path_starts_with(p: &str, base: &str) -> (r: bool)
    ensures
        r == path_starts_with_of(p@, base@),
{
    std::path::Path::new(p).starts_with(base)
}

/// Calls `Path::parent` and converts the parent lossily to text; the result
/// is named `path_parent_of`.
#[verifier::external_body]
pub fn path_parent(p: &str) -> (r: Option<String>)
    ensures
        r.deep_view() == path_parent_of(p@),
{
    match std::path::Path::new(p).parent() {
        Some(q) => Some(q.to_string_lossy().to_string()),
        None => None,
    }
}

/// Calls `Path::join` and converts the joined path lossily to text; the
/// result is named `path_join_of`.
#[verifier::external_body]
pub fn path_join(base: &str, p: &str) -> (r: String)
    ensures
        r@ == path_join_of(base@, p@),
{
    std::path::Path::new(base).join(p).to_string_lossy().to_string()
}

// ---------------------------------------------------------------------------
// Verified executable helpers
// ---------------------------------------------------------------------------

/// Whether `c` is an ASCII letter.
pub fn ascii_alpha(c: char) -> (r: bool)
    ensures
        r == is_ascii_alpha(c),
{
    ('a' <= c && c <= 'z') || ('A' <= c && c <= 'Z')
}

/// Whether `c` is an ASCII digit.
pub fn ascii_digit(c: char) -> (r: bool)
    ensures
        r == is_ascii_digit(c),
{
    '0' <= c && c <= '9'
}

/// Whether `c` is an ASCII letter or digit.
pub fn ascii_alnum(c: char) -> (r: bool)
    ensures
        r == is_ascii_alnum(c),
{
    ascii_alpha(c) || ascii_digit(c)
}

/// Copies a string slice into an owned string.
pub fn owned(s: &str) -> (r: String)
    ensures
        r@ == s@,
{
    s.to_owned()
}

/// Equality of two string slices.
pub fn str_eq(a: &str, b: &str) -> (r: bool)
    ensures
        r == (a@ == b@),
{
    let x = a.to_owned();
    let y = b.to_owned();
    x == y
}

/// Appends a string slice to a string.
pub fn push_str(out: &mut String, s: &str)
    ensures
        final(out)@ == old(out)@ + s@,
{
    out.append(s);
}

/// Builds a string from a slice of characters.
pub fn string_of(v: &[char]) -> (r: String)
    ensures
        r@ == v@,
{
    let mut out = String::new();
    let mut i: usize = 0;
    while i < v.len()
        invariant
            i <= v.len(),
            out@ == v@.subrange(0, i as int),
        decreases v.len() - i,
    {
        push_char(&mut out, v[i]);
        assert(v@.subrange(0, i + 1) =~= v@.subrange(0, i as int).push(v@[i as int]));
        i = i + 1;
    }
    assert(v@.subrange(0, v@.len() as int) =~= v@);
    out
}

/// The characters of `v` from `a` (inclusive) to `b` (exclusive).
pub fn sub_chars(v: &[char], a: usize, b: usize) -> (r: Vec<char>)
    requires
        a <= b <= v@.len(),
    ensures
        r@ == v@.subrange(a as int, b as int),
{
    let mut out: Vec<char> = Vec::new();
    let mut i: usize = a;
    while i < b
        invariant
            a <= i <= b <= v@.len(),
            out@ == v@.subrange(a as int, i as int),
        decreases b - i,
    {
        out.push(v[i]);
        assert(v@.subrange(a as int, i + 1) =~= v@.subrange(a as int, i as int).push(v@[i as int]));
        i = i + 1;
    }
    out
}

/// Prefix test on character slices.
pub fn chars_have_prefix(s: &[char], p: &[char]) -> (r: bool)
    ensures
        r == has_prefix(s@, p@),
{
    chars_occur_at(s, p, 0)
}

/// Suffix test on character slices.
pub fn chars_have_suffix(s: &[char], p: &[char]) -> (r: bool)
    ensures
        r == has_suffix(s@, p@),
{
    if p.len() > s.len() {
        return false;
    }
    chars_occur_at(s, p, s.len() - p.len())
}

/// Whether `p` occurs in `s` at index `i`.
pub fn chars_occur_at(s: &[char], p: &[char], i: usize) -> (r: bool)
    ensures
        r == occurs_at(s@, p@, i as int),
{
    if p.len() > s.len() || i > s.len() - p.len() {
        return false;
    }
    let mut j: usize = 0;
    while j < p.len()
        invariant
            i + p.len() <= s.len(),
            j <= p.len(),
            forall|k: int| 0 <= k < j ==> s@[i + k] == p@[k],
        decreases p.len() - j,
    {
        if s[i + j] != p[j] {
            assert(s@.subrange(i as int, i + p@.len())[j as int] != p@[j as int]);
            return false;
        }
        j = j + 1;
    }
    assert(s@.subrange(i as int, i + p@.len()) =~= p@);
    true
}

/// Whether `p` occurs anywhere in `s`.
pub fn chars_have_infix(s: &[char], p: &[char]) -> (r: bool)
    ensures
        r == has_infix(s@, p@),
{
    if p.len() > s.len() {
        assert forall|i: int| !occurs_at(s@, p@, i) by {}
        return false;
    }
    if p.len() == 0 {
        assert(s@.subrange(0, 0) =~= p@);
        assert(occurs_at(s@, p@, 0));
        return true;
    }
    let n = s.len();
    let last = n - p.len();
    let mut i: usize = 0;
    while i <= last
        invariant
            last == s@.len() - p@.len(),
            last < n,
            n == s@.len(),
            i <= last + 1,
            forall|k: int| 0 <= k < i ==> !occurs_at(s@, p@, k),
        decreases last + 1 - i,
    {
        if chars_occur_at(s, p, i) {
            return true;
        }
        i = i + 1;
    }
    assert forall|k: int| !occurs_at(s@, p@, k) by {
        if 0 <= k < i {
        }
    }
    false
}

/// Whether the character `c` occurs in `s`.
pub fn chars_contain(s: &[char], c: char) -> (r: bool)
    ensures
        r == s@.contains(c),
{
    let mut i: usize = 0;
    while i < s.len()
        invariant
            i <= s.len(),
            forall|k: int| 0 <= k < i ==> s@[k] != c,
        decreases s.len() - i,
    {
        if s[i] == c {
            return true;
        }
        i = i + 1;
    }
    false
}

/// Number of occurrences of `c` in `s`.
pub fn chars_count(s: &[char], c: char) -> (r: usize)
    ensures
        r == count_char(s@, c),
{
    let mut n: usize = 0;
    let mut i: usize = 0;
    while i < s.len()
        invariant
            i <= s.len(),
            n == count_char(s@.subrange(0, i as int), c),
            n <= i,
        decreases s.len() - i,
    {
        assert(s@.subrange(0, i + 1).drop_last() =~= s@.subrange(0, i as int));
        if s[i] == c {
            n = n + 1;
        }
        i = i + 1;
    }
    assert(s@.subrange(0, s@.len() as int) =~= s@);
    n
}

/// Index of the last occurrence of `c` in `s`.
pub fn chars_last_index(s: &[char], c: char) -> (r: Option<usize>)
    ensures
        match r {
            Some(i) => i == last_index_of(s@, c),
            None => last_index_of(s@, c) == -1,
        },
{
    let mut i: usize = s.len();
    assert(s@.subrange(0, s@.len() as int) =~= s@);
    while i > 0
        invariant
            i <= s.len(),
            last_index_of(s@, c) == last_index_of(s@.subrange(0, i as int), c),
        decreases i,
    {
        assert(s@.subrange(0, i as int).drop_last() =~= s@.subrange(0, i - 1));
        if s[i - 1] == c {
            return Some(i - 1);
        }
        i = i - 1;
    }
    None
}

/// Index of the first occurrence of `c` in `s`.
pub fn chars_first_index(s: &[char], c: char) -> (r: Option<usize>)
    ensures
        match r {
            Some(i) => i == first_index_of(s@, c) && 0 <= i < s@.len(),
            None => first_index_of(s@, c) == -1 && !s@.contains(c),
        },
{
    let mut i: usize = 0;
    while i < s.len()
        invariant
            i <= s.len(),
            forall|k: int| 0 <= k < i ==> s@[k] != c,
        decreases s.len() - i,
    {
        if s[i] == c {
            assert(s@.contains(c));
            let ghost j = first_index_of(s@, c);
            assert(j == i) by {
                if j < i {
                } else if j > i {
                }
            }
            return Some(i);
        }
        i = i + 1;
    }
    None
}

/// Lemma: the last occurrence, when there is one, is an occurrence, and no
/// later index holds the character.
pub proof fn lemma_last_index(s: Seq<char>, c: char)
    ensures
        -1 <= last_index_of(s, c) < s.len(),
        last_index_of(s, c) >= 0 ==> s[last_index_of(s, c)] == c,
        forall|j: int| last_index_of(s, c) < j < s.len() ==> s[j] != c,
        last_index_of(s, c) == -1 <==> !s.contains(c),
    decreases s.len(),
{
    if s.len() > 0 {
        lemma_last_index(s.drop_last(), c);
        if s.last() != c {
            assert forall|j: int| last_index_of(s, c) < j < s.len() implies s[j] != c by {
                if j < s.len() - 1 {
                    assert(s[j] == s.drop_last()[j]);
                }
            }
            if s.contains(c) {
                let k = choose|k: int| 0 <= k < s.len() && s[k] == c;
                assert(s.drop_last()[k] == c);
            }
            if s.drop_last().contains(c) {
                let k = choose|k: int| 0 <= k < s.drop_last().len() && s.drop_last()[k] == c;
                assert(s[k] == c);
            }
        } else {
            assert(s[s.len() - 1] == c);
        }
    }
}

/// Lemma: a character that occurs is counted.
pub proof fn lemma_count_positive(s: Seq<char>, c: char, k: int)
    requires
        0 <= k < s.len(),
        s[k] == c,
    ensures
        count_char(s, c) > 0,
    decreases s.len(),
{
    if k < s.len() - 1 {
        assert(s.drop_last()[k] == c);
        lemma_count_positive(s.drop_last(), c, k);
    }
}

/// Lemma: a character that does not occur has count zero.
pub proof fn lemma_count_zero(s: Seq<char>, c: char)
    requires
        !s.contains(c),
    ensures
        count_char(s, c) == 0,
    decreases s.len(),
{
    if s.len() > 0 {
        assert(!s.drop_last().contains(c)) by {
            if s.drop_last().contains(c) {
                let k = choose|k: int| 0 <= k < s.drop_last().len() && s.drop_last()[k] == c;
                assert(s[k] == c);
            }
        }
        assert(s[s.len() - 1] == s.last());
        lemma_count_zero(s.drop_last(), c);
    }
}

/// Lemma: counting over a concatenation adds the counts.
pub proof fn lemma_count_split(a: Seq<char>, b: Seq<char>, c: char)
    ensures
        count_char(a + b, c) == count_char(a, c) + count_char(b, c),
    decreases b.len(),
{
    if b.len() == 0 {
        assert(a + b =~= a);
    } else {
        lemma_count_split(a, b.drop_last(), c);
        assert((a + b).drop_last() =~= a + b.drop_last());
    }
}

/// Lemma: the text before the last occurrence of `c` holds one `c` fewer.
pub proof fn lemma_count_before_last(s: Seq<char>, c: char)
    requires
        last_index_of(s, c) >= 0,
    ensures
        count_char(s, c) == count_char(s.subrange(0, last_index_of(s, c)), c) + 1,
    decreases s.len(),
{
    if s.last() == c {
        assert(s.drop_last() =~= s.subrange(0, s.len() - 1));
    } else {
        lemma_count_before_last(s.drop_last(), c);
        lemma_last_index(s.drop_last(), c);
        let j = last_index_of(s, c);
        assert(s.drop_last().subrange(0, j) =~= s.subrange(0, j));
    }
}

/// ASCII case folding of one character.
pub fn to_ascii_lower(c: char) -> (r: char)
    ensures
        r == ascii_lower(c),
{
    if 'A' <= c && c <= 'Z' {
        let b: u8 = c as u8;
        assert(b as u32 == c as u32);
        let l: u8 = b + 32;
        l as char
    } else {
        c
    }
}

/// Equality up to ASCII case.
pub fn chars_eq_ignore_ascii_case(a: &[char], b: &[char]) -> (r: bool)
    ensures
        r == eq_ignore_ascii_case(a@, b@),
{
    if a.len() != b.len() {
        return false;
    }
    let mut i: usize = 0;
    while i < a.len()
        invariant
            a@.len() == b@.len(),
            i <= a@.len(),
            forall|j: int| 0 <= j < i ==> ascii_lower(a@[j]) == ascii_lower(b@[j]),
        decreases a@.len() - i,
    {
        if to_ascii_lower(a[i]) != to_ascii_lower(b[i]) {
            return false;
        }
        i = i + 1;
    }
    true
}

/// Prefix test on string slices.
pub fn str_has_prefix(s: &str, p: &str) -> (r: bool)
    ensures
        r == has_prefix(s@, p@),
{
    let a = chars_of(s);
    let b = chars_of(p);
    chars_have_prefix(a.as_slice(), b.as_slice())
}

/// Suffix test on string slices.
pub fn str_has_suffix(s: &str, p: &str) -> (r: bool)
    ensures
        r == has_suffix(s@, p@),
{
    let a = chars_of(s);
    let b = chars_of(p);
    chars_have_suffix(a.as_slice(), b.as_slice())
}

/// Infix test on string slices.
pub fn str_has_infix(s: &str, p: &str) -> (r: bool)
    ensures
        r == has_infix(s@, p@),
{
    let a = chars_of(s);
    let b = chars_of(p);
    chars_have_infix(a.as_slice(), b.as_slice())
}

/// Whether a string slice holds character `c`.
pub fn str_contains_char(s: &str, c: char) -> (r: bool)
    ensures
        r == s@.contains(c),
{
    let a = chars_of(s);
    chars_contain(a.as_slice(), c)
}

/// Whether a string slice has no character.
pub fn str_is_empty(s: &str) -> (r: bool)
    ensures
        r == (s@.len() == 0),
{
    s.is_empty()
}

} // verus!
