//! Character-level string helpers shared by the rest of the library.
//!
//! Strings are reasoned about through their view, the sequence of Unicode
//! scalar values they hold. The Unicode case mappings and the alphanumeric
//! property that std consults are named below (with what they are on
//! ASCII) and reached only through the thin wrappers of this module; the
//! `White_Space` property is written out.

use vstd::prelude::*;
use vstd::string::*;
use vstd::utf8::*;
use vstd::std_specs::iter::IteratorSpec;

verus! {

broadcast use vstd::string::group_string_axioms;

// =====================================================================
// Character classes and case mappings
// =====================================================================

/// What `str::to_lowercase` returns for a string with the given characters.
pub uninterp spec fn unicode_lowercase(text: Seq<char>) -> Seq<char>;

/// What `char::to_uppercase` yields, collected, for one character.
pub uninterp spec fn unicode_uppercase_char(c: char) -> Seq<char>;

/// What `char::is_alphanumeric` returns for a character.
pub uninterp spec fn unicode_alphanumeric(c: char) -> bool;

/// Whether a character is ASCII.
pub open spec fn is_ascii_char(c: char) -> bool {
    (c as u32) < 128
}

/// The ASCII lowercase of a character: `A`-`Z` become `a`-`z`, every other
/// character is kept.
pub open spec fn ascii_lower(c: char) -> char {
    if 65 <= (c as u32) <= 90 {
        ((c as u32) + 32) as char
    } else {
        c
    }
}

/// The ASCII uppercase of a character: `a`-`z` become `A`-`Z`, every other
/// character is kept.
pub open spec fn ascii_upper(c: char) -> char {
    if 97 <= (c as u32) <= 122 {
        ((c as u32) - 32) as char
    } else {
        c
    }
}

/// The ASCII lowercase of a text.
pub open spec fn ascii_lowercase(s: Seq<char>) -> Seq<char> {
    s.map_values(|c: char| ascii_lower(c))
}

/// Whether a character is an ASCII letter or digit.
pub open spec fn ascii_alphanumeric(c: char) -> bool {
    ||| 48 <= (c as u32) <= 57
    ||| 65 <= (c as u32) <= 90
    ||| 97 <= (c as u32) <= 122
}

/// Whether a character has the Unicode `White_Space` property: U+0009 to
/// U+000D, U+0020, U+0085, U+00A0, U+1680, U+2000 to U+200A, U+2028,
/// U+2029, U+202F, U+205F and U+3000.
pub open spec fn unicode_white_space(c: char) -> bool {
    let x = c as u32;
    ||| 9 <= x <= 13
    ||| x == 32
    ||| x == 0x85
    ||| x == 0xA0
    ||| x == 0x1680
    ||| 0x2000 <= x <= 0x200A
    ||| x == 0x2028
    ||| x == 0x2029
    ||| x == 0x202F
    ||| x == 0x205F
    ||| x == 0x3000
}

// =====================================================================
// Wrappers around std
// =====================================================================

/// `String::push`: appends one character at the end.
#[verifier::external_body]
pub(crate) fn push_char(s: &mut String, c: char)
    ensures
        final(s)@ == old(s)@.push(c),
{
    s.push(c)
}

/// `str::to_lowercase`: the lowercase mapping of the Unicode character
/// database, applied to the whole string. Beyond that it is a function of
/// the characters of its argument, it is stated that on an all-ASCII
/// string it is the ASCII lowercase (the mapping of the ASCII letters).
#[verifier::external_body]
pub(crate) fn to_lowercase(s: &str) -> (r: String)
    ensures
        r@ == unicode_lowercase(s@),
        is_ascii_chars(s@) ==> r@ == ascii_lowercase(s@),
{
    s.to_lowercase()
}

/// `char::to_uppercase`, collected into a string: the uppercase mapping of
/// one character (which may be several characters long). Beyond that it is
/// a function of the character, it is stated that an ASCII character maps
/// to its ASCII uppercase alone.
#[verifier::external_body]
pub(crate) fn char_to_uppercase(c: char) -> (r: String)
    ensures
        r@ == unicode_uppercase_char(c),
        is_ascii_char(c) ==> r@ == seq![ascii_upper(c)],
{
    c.to_uppercase().collect()
}

/// `char::is_alphanumeric`: whether the character is alphabetic or numeric
/// in the Unicode sense. Beyond that it is a function of the character, it
/// is stated that among ASCII characters exactly the letters and digits
/// are alphanumeric.
#[verifier::external_body]
pub(crate) fn is_alphanumeric(c: char) -> (r: bool)
    ensures
        r == unicode_alphanumeric(c),
        is_ascii_char(c) ==> r == ascii_alphanumeric(c),
{
    c.is_alphanumeric()
}

/// Whether the character has the Unicode `White_Space` property (what
/// `char::is_whitespace` answers).
pub fn is_whitespace(c: char) -> (r: bool)
    ensures
        r == unicode_white_space(c),
{
    let x: u32 = c as u32;
    (9 <= x && x <= 13) || x == 32 || x == 0x85 || x == 0xA0 || x == 0x1680 || (0x2000 <= x && x
        <= 0x200A) || x == 0x2028 || x == 0x2029 || x == 0x202F || x == 0x205F || x == 0x3000
}

/// `String::truncate`: keeps the first `new_len` bytes of the UTF-8
/// encoding, and does nothing when `new_len` is not below the byte length.
/// It panics when `new_len` falls inside a character, which `requires`
/// rules out.
#[verifier::external_body]
pub(crate) fn truncate_bytes(s: &mut String, new_len: usize)
    requires
        new_len >= encode_utf8(old(s)@).len() || is_char_boundary(
            encode_utf8(old(s)@),
            new_len as int,
        ),
    ensures
        new_len >= encode_utf8(old(s)@).len() ==> final(s)@ == old(s)@,
        new_len < encode_utf8(old(s)@).len() ==> encode_utf8(final(s)@) == encode_utf8(
            old(s)@,
        ).subrange(0, new_len as int),
{
    s.truncate(new_len)
}

// =====================================================================
// Conversions between strings and character vectors
// =====================================================================

/// The characters of a string, in order.
pub fn chars_of(s: &str) -> (v: Vec<char>)
    ensures
        v@ == s@,
{
    let mut v: Vec<char> = Vec::new();
    for c in it: s.chars()
        invariant
            v@ == it.seq().take(it.index() as int),
    {
        v.push(c);
    }
    assert(v@ =~= s@);
    v
}

/// A string holding the given characters.
pub fn string_from_chars(chars: &[char]) -> (s: String)
    ensures
        s@ == chars@,
{
    let mut s = String::new();
    let mut i: usize = 0;
    while i < chars.len()
        invariant
            i <= chars.len(),
            s@ == chars@.subrange(0, i as int),
        decreases chars.len() - i,
    {
        push_char(&mut s, chars[i]);
        i = i + 1;
    }
    s
}

/// The concatenation of two strings.
pub fn concat(a: &str, b: &str) -> (s: String)
    ensures
        s@ == a@ + b@,
{
    let mut s = a.to_owned();
    s.append(b);
    s
}

/// Whether two string slices hold the same characters.
pub fn same_text(a: &str, b: &str) -> (r: bool)
    ensures
        r == (a@ == b@),
{
    let x = chars_of(a);
    let y = chars_of(b);
    if x.len() != y.len() {
        return false;
    }
    let mut i: usize = 0;
    while i < x.len()
        invariant
            x@ == a@,
            y@ == b@,
            x@.len() == y@.len(),
            i <= x@.len(),
            forall|j: int| 0 <= j < i ==> x@[j] == y@[j],
        decreases x.len() - i,
    {
        if x[i] != y[i] {
            return false;
        }
        i = i + 1;
    }
    assert(x@ =~= y@);
    true
}

/// Whether some string of the list holds the same characters as `s`.
pub fn contains_text(list: &Vec<String>, s: &str) -> (r: bool)
    ensures
        r == exists|i: int| 0 <= i < list@.len() && #[trigger] list@[i]@ == s@,
{
    let mut i: usize = 0;
    while i < list.len()
        invariant
            i <= list@.len(),
            forall|j: int| 0 <= j < i ==> #[trigger] list@[j]@ != s@,
        decreases list.len() - i,
    {
        if same_text(list[i].as_str(), s) {
            return true;
        }
        i = i + 1;
    }
    false
}

/// Whether `s` ends with `suffix`.
pub open spec fn has_suffix(s: Seq<char>, suffix: Seq<char>) -> bool {
    suffix.len() <= s.len() && s.subrange(s.len() - suffix.len(), s.len() as int) == suffix
}

/// Whether a string ends with the given suffix.
pub fn ends_with_text(s: &str, suffix: &str) -> (r: bool)
    ensures
        r == has_suffix(s@, suffix@),
{
    let x = chars_of(s);
    let y = chars_of(suffix);
    if y.len() > x.len() {
        return false;
    }
    let n: usize = x.len();
    let off: usize = n - y.len();
    let mut i: usize = 0;
    while i < y.len()
        invariant
            n == x@.len(),
            x@ == s@,
            y@ == suffix@,
            y@.len() <= x@.len(),
            off == x@.len() - y@.len(),
            i <= y@.len(),
            forall|j: int| 0 <= j < i ==> x@[off + j] == y@[j],
        decreases y.len() - i,
    {
        if x[off + i] != y[i] {
            assert(x@.subrange(off as int, x@.len() as int)[i as int] != y@[i as int]);
            return false;
        }
        i = i + 1;
    }
    assert(x@.subrange(off as int, x@.len() as int) =~= y@);
    true
}

// =====================================================================
// Searching
// =====================================================================

/// Whether `needle` occurs in `hay` starting at position `at`.
pub open spec fn occurs_at<T>(hay: Seq<T>, needle: Seq<T>, at: int) -> bool {
    &&& 0 <= at
    &&& at + needle.len() <= hay.len()
    &&& hay.subrange(at, at + needle.len()) == needle
}

/// Whether `needle` occurs anywhere in `hay` (the empty sequence occurs in
/// every sequence).
pub open spec fn contains_seq<T>(hay: Seq<T>, needle: Seq<T>) -> bool {
    exists|i: int| occurs_at(hay, needle, i)
}

/// The first position at which `needle` occurs in `hay`.
pub open spec fn first_occurrence<T>(hay: Seq<T>, needle: Seq<T>) -> Option<int> {
    if contains_seq(hay, needle) {
        Some(choose|i: int| occurs_at(hay, needle, i) && forall|j: int| 0 <= j < i ==> !occurs_at(hay, needle, j))
    } else {
        None
    }
}

/// Proves that the `choose` in `first_occurrence` picks `i`.
proof fn lemma_first_occurrence_is<T>(hay: Seq<T>, needle: Seq<T>, i: int)
    requires
        occurs_at(hay, needle, i),
        forall|j: int| 0 <= j < i ==> !occurs_at(hay, needle, j),
    ensures
        first_occurrence(hay, needle) == Some(i),
{
    assert(contains_seq(hay, needle));
    let c = choose|k: int| occurs_at(hay, needle, k) && forall|j: int| 0 <= j < k ==> !occurs_at(hay, needle, j);
    assert(occurs_at(hay, needle, c) && forall|j: int| 0 <= j < c ==> !occurs_at(hay, needle, j));
    if c < i {
        assert(!occurs_at(hay, needle, c));
    }
    if i < c {
        assert(!occurs_at(hay, needle, i));
    }
}

/// The first position at which the byte string `needle` occurs in `hay`.
pub fn find_bytes(hay: &[u8], needle: &[u8]) -> (r: Option<usize>)
    ensures
        r matches Some(i) ==> first_occurrence(hay@, needle@) == Some(i as int),
        r is None ==> first_occurrence(hay@, needle@) is None,
{
    if needle.len() == 0 {
        proof {
            assert(hay@.subrange(0, 0) =~= needle@);
            lemma_first_occurrence_is(hay@, needle@, 0);
        }
        return Some(0);
    }
    if needle.len() > hay.len() {
        assert forall|i: int| !occurs_at(hay@, needle@, i) by {}
        return None;
    }
    let last: usize = hay.len() - needle.len();
    let mut i: usize = 0;
    while i <= last
        invariant
            last == hay@.len() - needle@.len(),
            0 < needle@.len() <= hay@.len(),
            hay@.len() == hay.len(),
            forall|j: int| 0 <= j < i ==> !occurs_at(hay@, needle@, j),
        decreases last + 1 - i,
    {
        if byte_match_at(hay, needle, i) {
            proof {
                lemma_first_occurrence_is(hay@, needle@, i as int);
            }
            return Some(i);
        }
        i = i + 1;
    }
    assert forall|j: int| !occurs_at(hay@, needle@, j) by {
        if 0 <= j && j + needle@.len() <= hay@.len() {
            assert(j < i);
        }
    }
    None
}

fn byte_match_at(hay: &[u8], needle: &[u8], at: usize) -> (r: bool)
    requires
        at + needle@.len() <= hay@.len(),
    ensures
        r == occurs_at(hay@, needle@, at as int),
{
    let mut k: usize = 0;
    while k < needle.len()
        invariant
            at + needle@.len() <= hay@.len(),
            hay@.len() == hay.len(),
            k <= needle@.len(),
            forall|j: int| 0 <= j < k ==> hay@[at + j] == needle@[j],
        decreases needle.len() - k,
    {
        if hay[at + k] != needle[k] {
            assert(hay@.subrange(at as int, at + needle@.len())[k as int] != needle@[k as int]);
            return false;
        }
        k = k + 1;
    }
    assert(hay@.subrange(at as int, at + needle@.len()) =~= needle@);
    true
}

fn char_match_at(hay: &[char], needle: &[char], at: usize) -> (r: bool)
    requires
        at + needle@.len() <= hay@.len(),
    ensures
        r == occurs_at(hay@, needle@, at as int),
{
    let mut k: usize = 0;
    while k < needle.len()
        invariant
            at + needle@.len() <= hay@.len(),
            hay@.len() == hay.len(),
            k <= needle@.len(),
            forall|j: int| 0 <= j < k ==> hay@[at + j] == needle@[j],
        decreases needle.len() - k,
    {
        if hay[at + k] != needle[k] {
            assert(hay@.subrange(at as int, at + needle@.len())[k as int] != needle@[k as int]);
            return false;
        }
        k = k + 1;
    }
    assert(hay@.subrange(at as int, at + needle@.len()) =~= needle@);
    true
}

/// Whether the characters of `needle` occur contiguously in `hay`.
pub fn contains_str(hay: &str, needle: &str) -> (r: bool)
    ensures
        r == contains_seq(hay@, needle@),
{
    let h = chars_of(hay);
    let n = chars_of(needle);
    if n.len() == 0 {
        assert(occurs_at(hay@, needle@, 0)) by {
            assert(hay@.subrange(0, 0) =~= needle@);
        }
        return true;
    }
    if n.len() > h.len() {
        assert forall|i: int| !occurs_at(hay@, needle@, i) by {}
        return false;
    }
    let last: usize = h.len() - n.len();
    let mut i: usize = 0;
    while i <= last
        invariant
            h@ == hay@,
            n@ == needle@,
            last == h@.len() - n@.len(),
            0 < n@.len() <= h@.len(),
            h@.len() == h.len(),
            forall|j: int| 0 <= j < i ==> !occurs_at(hay@, needle@, j),
        decreases last + 1 - i,
    {
        if char_match_at(h.as_slice(), n.as_slice(), i) {
            return true;
        }
        i = i + 1;
    }
    assert forall|j: int| !occurs_at(hay@, needle@, j) by {
        if 0 <= j && j + needle@.len() <= hay@.len() {
            assert(j < i);
        }
    }
    false
}

/// Whether `s` starts with `prefix`.
pub open spec fn has_prefix(s: Seq<char>, prefix: Seq<char>) -> bool {
    prefix.len() <= s.len() && s.subrange(0, prefix.len() as int) == prefix
}

/// `s` with every leading repetition of a non-empty `prefix` removed.
pub open spec fn strip_all_prefixes(s: Seq<char>, prefix: Seq<char>) -> Seq<char>
    decreases s.len(),
{
    if prefix.len() > 0 && has_prefix(s, prefix) {
        strip_all_prefixes(s.subrange(prefix.len() as int, s.len() as int), prefix)
    } else {
        s
    }
}

/// Whether a string starts with the given prefix.
pub fn starts_with_text(s: &str, prefix: &str) -> (r: bool)
    ensures
        r == has_prefix(s@, prefix@),
{
    let x = chars_of(s);
    let y = chars_of(prefix);
    if y.len() > x.len() {
        return false;
    }
    let r = char_match_at(x.as_slice(), y.as_slice(), 0);
    assert(r == has_prefix(s@, prefix@)) by {
        assert(x@.subrange(0, y@.len() as int) =~= x@.subrange(0int, 0int + y@.len()));
    }
    r
}

/// A string with every leading repetition of `prefix` removed (as
/// `str::trim_start_matches` does with a string pattern).
pub fn trim_start_matches_text(s: &str, prefix: &str) -> (r: String)
    ensures
        r@ == strip_all_prefixes(s@, prefix@),
{
    let x = chars_of(s);
    let y = chars_of(prefix);
    let n: usize = x.len();
    let mut i: usize = 0;
    if y.len() > 0 {
        proof {
            assert(x@.subrange(0, n as int) =~= x@);
        }
        loop
            invariant
                n == x@.len(),
                x@ == s@,
                y@ == prefix@,
                y@.len() > 0,
                i <= n,
                strip_all_prefixes(s@, prefix@) == strip_all_prefixes(
                    x@.subrange(i as int, n as int),
                    prefix@,
                ),
            ensures
                i <= n,
                strip_all_prefixes(s@, prefix@) == x@.subrange(i as int, n as int),
            decreases n - i,
        {
            if y.len() > n - i {
                break;
            }
            let m = char_match_at(x.as_slice(), y.as_slice(), i);
            proof {
                let rest = x@.subrange(i as int, n as int);
                assert(rest.subrange(0, y@.len() as int) =~= x@.subrange(
                    i as int,
                    i + y@.len(),
                ));
                assert(rest.subrange(y@.len() as int, rest.len() as int) =~= x@.subrange(
                    i + y@.len(),
                    n as int,
                ));
            }
            if !m {
                break;
            }
            i = i + y.len();
        }
    }
    proof {
        if y@.len() == 0 {
            assert(x@.subrange(0, n as int) =~= x@);
        }
    }
    let mut r = String::new();
    let mut k: usize = i;
    while k < n
        invariant
            n == x@.len(),
            i <= k <= n,
            r@ == x@.subrange(i as int, k as int),
        decreases n - k,
    {
        push_char(&mut r, x[k]);
        proof {
            assert(x@.subrange(i as int, k + 1) =~= x@.subrange(i as int, k as int).push(
                x@[k as int],
            ));
        }
        k = k + 1;
    }
    assert(x@.subrange(i as int, n as int) == r@);
    r
}

// =====================================================================
// Trimming
// =====================================================================

/// Index of the first character that is not white space (the length when
/// there is none).
pub open spec fn trim_start_index(s: Seq<char>) -> int
    decreases s.len(),
{
    if s.len() == 0 {
        0
    } else if unicode_white_space(s[0]) {
        1 + trim_start_index(s.drop_first())
    } else {
        0
    }
}

/// `s` without its leading and trailing white space, as `str::trim` gives it.
pub open spec fn trimmed(s: Seq<char>) -> Seq<char> {
    let start = trim_start_index(s);
    let rest = s.subrange(start, s.len() as int);
    rest.subrange(0, rest.len() - trim_start_index(rest.reverse()))
}

proof fn lemma_trim_start_index_bounds(s: Seq<char>)
    ensures
        0 <= trim_start_index(s) <= s.len(),
        forall|j: int| 0 <= j < trim_start_index(s) ==> unicode_white_space(s[j]),
        trim_start_index(s) < s.len() ==> !unicode_white_space(s[trim_start_index(s)]),
    decreases s.len(),
{
    if s.len() > 0 && unicode_white_space(s[0]) {
        lemma_trim_start_index_bounds(s.drop_first());
        assert forall|j: int| 0 <= j < trim_start_index(s) implies unicode_white_space(s[j]) by {
            if j > 0 {
                assert(s[j] == s.drop_first()[j - 1]);
            }
        }
    }
}

/// The trimmed text is a slice of the text, starting at its first
/// non-white-space character.
pub(crate) proof fn lemma_trimmed_is_slice(s: Seq<char>)
    ensures
        0 <= trim_start_index(s) <= s.len(),
        trim_start_index(s) + trimmed(s).len() <= s.len(),
        forall|j: int|
            0 <= j < trimmed(s).len() ==> #[trigger] trimmed(s)[j] == s[trim_start_index(s) + j],
{
    lemma_trim_start_index_bounds(s);
    let rest = s.subrange(trim_start_index(s), s.len() as int);
    lemma_trim_start_index_bounds(rest.reverse());
}

/// A text that neither starts nor ends with white space is its own
/// trimmed form.
pub(crate) proof fn lemma_trimmed_unchanged(s: Seq<char>)
    requires
        s.len() > 0 ==> !unicode_white_space(s[0]) && !unicode_white_space(s[s.len() - 1]),
    ensures
        trimmed(s) == s,
{
    if s.len() > 0 {
        lemma_trim_start_index_unique(s, 0);
        assert(s.subrange(0, s.len() as int) =~= s);
        assert(s.reverse()[0] == s[s.len() - 1]);
        lemma_trim_start_index_unique(s.reverse(), 0);
    } else {
        lemma_trim_start_index_unique(s, 0);
        assert(s.subrange(0, 0) =~= s);
        lemma_trim_start_index_unique(s.reverse(), 0);
    }
}

proof fn lemma_trim_start_index_unique(s: Seq<char>, k: int)
    requires
        0 <= k <= s.len(),
        forall|j: int| 0 <= j < k ==> unicode_white_space(s[j]),
        k < s.len() ==> !unicode_white_space(s[k]),
    ensures
        trim_start_index(s) == k,
    decreases s.len(),
{
    if s.len() > 0 && k > 0 {
        assert(unicode_white_space(s[0]));
        assert forall|j: int| 0 <= j < k - 1 implies unicode_white_space(s.drop_first()[j]) by {
            assert(s.drop_first()[j] == s[j + 1]);
        }
        if k - 1 < s.drop_first().len() {
            assert(s.drop_first()[k - 1] == s[k]);
        }
        lemma_trim_start_index_unique(s.drop_first(), k - 1);
    }
}

/// The characters of `s` with leading and trailing white space removed.
pub fn trim_chars(s: &[char]) -> (r: Vec<char>)
    ensures
        r@ == trimmed(s@),
{
    let n: usize = s.len();
    let mut start: usize = 0;
    while start < n && is_whitespace(s[start])
        invariant
            start <= n,
            n == s@.len(),
            forall|j: int| 0 <= j < start ==> unicode_white_space(s@[j]),
        decreases n - start,
    {
        start = start + 1;
    }
    proof {
        lemma_trim_start_index_unique(s@, start as int);
    }
    let mut end: usize = n;
    while end > start && is_whitespace(s[end - 1])
        invariant
            start <= end <= n,
            n == s@.len(),
            forall|j: int| end <= j < n ==> unicode_white_space(s@[j]),
        decreases end,
    {
        end = end - 1;
    }
    let ghost rest = s@.subrange(start as int, n as int);
    proof {
        let rr = rest.reverse();
        let k = (n - end) as int;
        assert forall|j: int| 0 <= j < k implies unicode_white_space(rr[j]) by {
            assert(rr[j] == rest[rest.len() - 1 - j]);
            assert(rest[rest.len() - 1 - j] == s@[n - 1 - j]);
        }
        if k < rr.len() {
            assert(rr[k] == s@[end - 1]);
        }
        lemma_trim_start_index_unique(rr, k);
    }
    let mut r: Vec<char> = Vec::new();
    let mut i: usize = start;
    while i < end
        invariant
            start <= i <= end <= n,
            n == s@.len(),
            r@ == s@.subrange(start as int, i as int),
        decreases end - i,
    {
        r.push(s[i]);
        i = i + 1;
    }
    assert(r@ =~= rest.subrange(0, rest.len() - trim_start_index(rest.reverse())));
    r
}

/// A string slice's characters with leading and trailing white space
/// removed, as a new string.
pub fn trim(s: &str) -> (r: String)
    ensures
        r@ == trimmed(s@),
{
    let chars = chars_of(s);
    let t = trim_chars(chars.as_slice());
    string_from_chars(t.as_slice())
}

} // verus!
