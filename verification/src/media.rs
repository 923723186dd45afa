//! Now-playing metadata: the track record exchanged with the media
//! monitors, title clean-up, the Wikipedia lookup's text logic, application
//! name clean-up and the caches that avoid refetching album art.

use vstd::prelude::*;
use vstd::string::*;
use vstd::utf8::*;
use crate::text::{
    chars_of, concat, contains_seq, contains_str, first_occurrence, find_bytes, push_char,
    string_from_chars, to_lowercase, trim, trimmed, truncate_bytes, unicode_lowercase,
    char_to_uppercase, unicode_uppercase_char,
};
use crate::url::{url_decode, url_decoded, url_encode, url_encoded};
use crate::text::{ascii_lowercase, ascii_upper};
use crate::text::{has_prefix, starts_with_text, strip_all_prefixes, trim_start_matches_text};
use base64::Engine;

verus! {

broadcast use vstd::string::group_string_axioms;

// =====================================================================
// Track record
// =====================================================================

/// Information about the track currently playing, as a monitor reports it.
#[derive(Clone, Debug, Default, PartialEq)]
pub struct MediaTrackInfo {
    pub title: String,
    pub artist: String,
    pub album: String,
    pub is_playing: bool,
    pub source_app: String,
    pub album_art: Option<Vec<u8>>,
}

/// The plain content of a `MediaTrackInfo`.
pub struct MediaTrackView {
    pub title: Seq<char>,
    pub artist: Seq<char>,
    pub album: Seq<char>,
    pub is_playing: bool,
    pub source_app: Seq<char>,
    pub album_art: Option<Seq<u8>>,
}

/// The bytes of an optional image, by value.
pub open spec fn art_view(art: Option<Vec<u8>>) -> Option<Seq<u8>> {
    match art {
        Some(v) => Some(v@),
        None => None,
    }
}

impl View for MediaTrackInfo {
    type V = MediaTrackView;

    open spec fn view(&self) -> MediaTrackView {
        MediaTrackView {
            title: self.title@,
            artist: self.artist@,
            album: self.album@,
            is_playing: self.is_playing,
            source_app: self.source_app@,
            album_art: art_view(self.album_art),
        }
    }
}

/// Whether two byte vectors hold the same bytes.
pub fn same_bytes(a: &Vec<u8>, b: &Vec<u8>) -> (r: bool)
    ensures
        r == (a@ == b@),
{
    if a.len() != b.len() {
        return false;
    }
    let mut i: usize = 0;
    while i < a.len()
        invariant
            a@.len() == b@.len(),
            i <= a@.len(),
            forall|j: int| 0 <= j < i ==> a@[j] == b@[j],
        decreases a.len() - i,
    {
        if a[i] != b[i] {
            return false;
        }
        i = i + 1;
    }
    assert(a@ =~= b@);
    true
}

/// A copy of a byte vector.
pub fn copy_bytes(a: &Vec<u8>) -> (r: Vec<u8>)
    ensures
        r@ == a@,
{
    let mut r: Vec<u8> = Vec::new();
    let mut i: usize = 0;
    while i < a.len()
        invariant
            i <= a@.len(),
            r@ == a@.subrange(0, i as int),
        decreases a.len() - i,
    {
        r.push(a[i]);
        i = i + 1;
    }
    assert(r@ =~= a@);
    r
}

/// A copy of an optional image.
pub fn copy_art(a: &Option<Vec<u8>>) -> (r: Option<Vec<u8>>)
    ensures
        art_view(r) == art_view(*a),
{
    match a {
        Some(v) => Some(copy_bytes(v)),
        None => None,
    }
}

/// Whether two optional images are the same.
pub fn same_art(a: &Option<Vec<u8>>, b: &Option<Vec<u8>>) -> (r: bool)
    ensures
        r == (art_view(*a) == art_view(*b)),
{
    match (a, b) {
        (Some(x), Some(y)) => same_bytes(x, y),
        (None, None) => true,
        _ => false,
    }
}

impl MediaTrackInfo {
    /// Whether `other` describes exactly the same track state.
    pub fn same_as(&self, other: &MediaTrackInfo) -> (r: bool)
        ensures
            r == (self@ == other@),
    {
        self.title == other.title && self.artist == other.artist && self.album == other.album
            && self.is_playing == other.is_playing && self.source_app == other.source_app
            && same_art(&self.album_art, &other.album_art)
    }

    /// A copy of the record.
    pub fn duplicate(&self) -> (r: MediaTrackInfo)
        ensures
            r@ == self@,
    {
        MediaTrackInfo {
            title: self.title.clone(),
            artist: self.artist.clone(),
            album: self.album.clone(),
            is_playing: self.is_playing,
            source_app: self.source_app.clone(),
            album_art: copy_art(&self.album_art),
        }
    }
}

/// A monitor sends an update only when the track state differs from the
/// last one it sent: this says whether `current` is to be sent.
pub fn should_publish(last_sent: &Option<MediaTrackInfo>, current: &MediaTrackInfo) -> (r: bool)
    ensures
        r == !(last_sent matches Some(l) && l@ == current@),
{
    match last_sent {
        Some(l) => !l.same_as(current),
        None => true,
    }
}

// =====================================================================
// Title clean-up
// =====================================================================

/// Terms after which a track title holds only decoration such as
/// "(Official Video)" or a featured-artist credit.
pub open spec fn garbage_terms() -> Seq<Seq<char>> {
    seq![
        "(Official Video)"@,
        "(Official Music Video)"@,
        "(Lyric Video)"@,
        "(Audio)"@,
        "[Official Video]"@,
        "[Official Music Video]"@,
        "[Lyric Video]"@,
        "[Audio]"@,
        "ft."@,
        "feat."@,
        "featuring"@,
    ]
}

/// The markers that a video or audio upload adds to its title.
pub open spec fn decoration_markers() -> Seq<Seq<char>> {
    seq!["Official Video"@, "Official Music Video"@, "Lyric Video"@, "Audio"@]
}

/// The decoration terms are the four upload markers in round brackets, the
/// same four in square brackets, and then the featured-artist credits
/// "ft.", "feat." and "featuring".
pub proof fn lemma_decoration_terms()
    ensures
        garbage_terms().len() == 11,
        forall|k: int|
            0 <= k < 4 ==> #[trigger] garbage_terms()[k] == seq!['('] + decoration_markers()[k]
                + seq![')'],
        forall|k: int|
            0 <= k < 4 ==> #[trigger] garbage_terms()[k + 4] == seq!['['] + decoration_markers()[k]
                + seq![']'],
        garbage_terms()[8] == seq!['f', 't', '.'],
        garbage_terms()[9] == seq!['f', 'e', 'a', 't', '.'],
        garbage_terms()[10] == seq!['f', 'e', 'a', 't', 'u', 'r', 'i', 'n', 'g'],
{
    reveal_strlit("(Official Video)");
    reveal_strlit("(Official Music Video)");
    reveal_strlit("(Lyric Video)");
    reveal_strlit("(Audio)");
    reveal_strlit("[Official Video]");
    reveal_strlit("[Official Music Video]");
    reveal_strlit("[Lyric Video]");
    reveal_strlit("[Audio]");
    reveal_strlit("ft.");
    reveal_strlit("feat.");
    reveal_strlit("featuring");
    reveal_strlit("Official Video");
    reveal_strlit("Official Music Video");
    reveal_strlit("Lyric Video");
    reveal_strlit("Audio");
    let g = garbage_terms();
    let m = decoration_markers();
    assert(g[0] =~= seq!['('] + m[0] + seq![')']);
    assert(g[1] =~= seq!['('] + m[1] + seq![')']);
    assert(g[2] =~= seq!['('] + m[2] + seq![')']);
    assert(g[3] =~= seq!['('] + m[3] + seq![')']);
    assert(g[4] =~= seq!['['] + m[0] + seq![']']);
    assert(g[5] =~= seq!['['] + m[1] + seq![']']);
    assert(g[6] =~= seq!['['] + m[2] + seq![']']);
    assert(g[7] =~= seq!['['] + m[3] + seq![']']);
    assert(g[8] =~= seq!['f', 't', '.']);
    assert(g[9] =~= seq!['f', 'e', 'a', 't', '.']);
    assert(g[10] =~= seq!['f', 'e', 'a', 't', 'u', 'r', 'i', 'n', 'g']);
}

fn garbage_term(k: usize) -> (t: &'static str)
    requires
        k < 11,
    ensures
        t@ == garbage_terms()[k as int],
{
    match k {
        0 => "(Official Video)",
        1 => "(Official Music Video)",
        2 => "(Lyric Video)",
        3 => "(Audio)",
        4 => "[Official Video]",
        5 => "[Official Music Video]",
        6 => "[Lyric Video]",
        7 => "[Audio]",
        8 => "ft.",
        9 => "feat.",
        _ => "featuring",
    }
}

/// One clean-up step: the byte position of the first occurrence of the
/// lowercased term in the lowercased title, and the title cut at that byte
/// position. `None` where the position falls inside a character of the
/// title (where cutting panics).
pub open spec fn cut_at_term(clean: Seq<char>, term: Seq<char>) -> Option<Seq<char>> {
    match first_occurrence(
        encode_utf8(unicode_lowercase(clean)),
        encode_utf8(unicode_lowercase(term)),
    ) {
        None => Some(clean),
        Some(i) => {
            let b = encode_utf8(clean);
            if i >= b.len() {
                Some(clean)
            } else if is_char_boundary(b, i) {
                Some(decode_utf8(b.subrange(0, i)))
            } else {
                None
            }
        },
    }
}

/// The title after the first `k` clean-up steps.
pub open spec fn cut_terms(title: Seq<char>, k: nat) -> Option<Seq<char>>
    decreases k,
{
    if k == 0 {
        Some(title)
    } else {
        match cut_terms(title, (k - 1) as nat) {
            None => None,
            Some(c) => cut_at_term(c, garbage_terms()[k - 1]),
        }
    }
}

/// The cleaned title: every garbage term cut off, then white space trimmed.
/// `None` for the titles on which the clean-up panics.
pub open spec fn sanitized_title(title: Seq<char>) -> Option<Seq<char>> {
    match cut_terms(title, 11) {
        Some(c) => Some(trimmed(c)),
        None => None,
    }
}

proof fn lemma_cut_terms_stays_none(title: Seq<char>, k: nat, m: nat)
    requires
        k <= m,
        cut_terms(title, k) is None,
    ensures
        cut_terms(title, m) is None,
    decreases m - k,
{
    if k < m {
        lemma_cut_terms_stays_none(title, k, (m - 1) as nat);
    }
}

/// Every position of the UTF-8 encoding of an ASCII text is a character
/// boundary, and the encoding is as long as the text.
proof fn lemma_ascii_char_boundary(s: Seq<char>, i: int)
    requires
        is_ascii_chars(s),
        0 <= i <= s.len(),
    ensures
        encode_utf8(s).len() == s.len(),
        is_char_boundary(encode_utf8(s), i),
{
    is_ascii_chars_encode_utf8(s);
    encode_utf8_valid_utf8(s);
    if i == s.len() {
        is_char_boundary_start_end_of_seq(encode_utf8(s));
    } else {
        is_ascii_chars_nat_bound(s);
        assert(encode_utf8(s)[i] == s[i] as u8);
        is_char_boundary_iff_is_leading_byte(encode_utf8(s), i);
    }
}

/// Cutting the encoding of an ASCII text after `i` bytes gives its first
/// `i` characters, which are ASCII too.
proof fn lemma_ascii_prefix(s: Seq<char>, i: int)
    requires
        is_ascii_chars(s),
        0 <= i <= s.len(),
    ensures
        decode_utf8(encode_utf8(s).subrange(0, i)) == s.subrange(0, i),
        is_ascii_chars(s.subrange(0, i)),
{
    let p = s.subrange(0, i);
    assert forall|j: int| 0 <= j < p.len() implies '\0' <= #[trigger] p[j] <= '\u{7f}' by {
        assert(p[j] == s[j]);
    }
    is_ascii_chars_encode_utf8(s);
    is_ascii_chars_encode_utf8(p);
    assert(encode_utf8(p) =~= encode_utf8(s).subrange(0, i));
    encode_utf8_decode_utf8(p);
}

/// Where one clean-up step cuts `clean`: `Ok(None)` when it keeps the
/// whole title, `Ok(Some(i))` when it keeps the first `i` bytes, `Err(())`
/// when the cut would fall inside a character.
fn cut_position(clean: &str, term: &str) -> (r: Result<Option<usize>, ()>)
    ensures
        r matches Ok(None) ==> cut_at_term(clean@, term@) == Some(clean@),
        r matches Ok(Some(i)) ==> i < encode_utf8(clean@).len() && is_char_boundary(
            encode_utf8(clean@),
            i as int,
        ) && cut_at_term(clean@, term@) == Some(
            decode_utf8(encode_utf8(clean@).subrange(0, i as int)),
        ),
        r is Err ==> cut_at_term(clean@, term@) is None,
        is_ascii_chars(clean@) ==> r is Ok,
{
    let lower = to_lowercase(clean);
    let lower_term = to_lowercase(term);
    let hay = lower.as_str().as_bytes();
    let needle = lower_term.as_str().as_bytes();
    assert(hay@ == encode_utf8(unicode_lowercase(clean@)));
    assert(needle@ == encode_utf8(unicode_lowercase(term@)));
    let ghost b = encode_utf8(clean@);
    match find_bytes(hay, needle) {
        None => {
            assert(cut_at_term(clean@, term@) == Some(clean@));
            Ok(None)
        },
        Some(i) => {
            assert(first_occurrence(encode_utf8(unicode_lowercase(clean@)), encode_utf8(unicode_lowercase(term@))) == Some(i as int));
            let clean_len = clean.as_bytes().len();
            proof {
                if is_ascii_chars(clean@) && i < clean_len {
                    is_ascii_chars_encode_utf8(clean@);
                    lemma_ascii_char_boundary(clean@, i as int);
                }
            }
            if i < clean_len {
                if clean.is_char_boundary(i) {
                    Ok(Some(i))
                } else {
                    Err(())
                }
            } else {
                assert(cut_at_term(clean@, term@) == Some(clean@));
                Ok(None)
            }
        },
    }
}

/// Applies one clean-up step to `clean`; `false` (with `clean` untouched)
/// where the step would cut inside a character.
fn cut_step(clean: &mut String, term: &str) -> (ok: bool)
    ensures
        ok ==> cut_at_term(old(clean)@, term@) == Some(final(clean)@),
        !ok ==> cut_at_term(old(clean)@, term@) is None,
        is_ascii_chars(old(clean)@) ==> ok && is_ascii_chars(final(clean)@),
{
    match cut_position(clean.as_str(), term) {
        Ok(None) => true,
        Ok(Some(i)) => {
            let ghost before = clean@;
            truncate_bytes(clean, i);
            proof {
                encode_utf8_decode_utf8(clean@);
                if is_ascii_chars(before) {
                    lemma_ascii_char_boundary(before, 0);
                    lemma_ascii_prefix(before, i as int);
                }
            }
            true
        },
        Err(()) => false,
    }
}

/// Cleans a track title of common decoration ("(Official Video)",
/// "feat." and the like) so that it can be used as a search query.
/// Returns `None` on the titles on which the clean-up would panic (where a
/// match found in the lowercased title falls inside a character of the
/// title itself).
pub fn sanitize_title_checked(title: &str) -> (r: Option<String>)
    ensures
        match r {
            Some(s) => sanitized_title(title@) == Some(s@),
            None => sanitized_title(title@) is None,
        },
        is_ascii_chars(title@) ==> r is Some,
{
    let mut clean = title.to_owned();
    let mut k: usize = 0;
    while k < 11
        invariant
            k <= 11,
            cut_terms(title@, k as nat) == Some(clean@),
            is_ascii_chars(title@) ==> is_ascii_chars(clean@),
        decreases 11 - k,
    {
        let term = garbage_term(k);
        let ghost before = clean@;
        let ok = cut_step(&mut clean, term);
        assert(cut_terms(title@, (k + 1) as nat) == cut_at_term(before, garbage_terms()[k as int]));
        if !ok {
            proof {
                lemma_cut_terms_stays_none(title@, (k + 1) as nat, 11);
            }
            return None;
        }
        k = k + 1;
    }
    Some(trim(clean.as_str()))
}

/// Cleans a track title of common decoration ("(Official Video)",
/// "feat." and the like) so that it can be used as a search query.
pub fn sanitize_title(title: &str) -> (r: String)
    requires
        sanitized_title(title@) is Some,
    ensures
        sanitized_title(title@) == Some(r@),
{
    match sanitize_title_checked(title) {
        Some(s) => s,
        None => String::new(),
    }
}

/// Whether a title can be cleaned up without a panic (see
/// `sanitize_title_checked`).
pub fn title_can_be_sanitized(title: &str) -> (r: bool)
    ensures
        r == sanitized_title(title@) is Some,
        is_ascii_chars(title@) ==> r,
{
    sanitize_title_checked(title).is_some()
}

// =====================================================================
// Application names
// =====================================================================

/// Position of the last `c` in `s`, or -1.
pub open spec fn last_index_of(s: Seq<char>, c: char) -> int
    decreases s.len(),
{
    if s.len() == 0 {
        -1
    } else if s.last() == c {
        s.len() - 1
    } else {
        last_index_of(s.drop_last(), c)
    }
}

/// Position of the first `c` in `s`, or the length of `s`.
pub open spec fn first_index_of(s: Seq<char>, c: char) -> int
    decreases s.len(),
{
    if s.len() == 0 {
        0
    } else if s[0] == c {
        0
    } else {
        1 + first_index_of(s.drop_first(), c)
    }
}

proof fn lemma_last_index_of_is(s: Seq<char>, c: char, k: int)
    requires
        -1 <= k < s.len(),
        k >= 0 ==> s[k] == c,
        forall|j: int| k < j < s.len() ==> s[j] != c,
    ensures
        last_index_of(s, c) == k,
    decreases s.len(),
{
    if s.len() > 0 && k < s.len() - 1 {
        assert(s.last() != c);
        assert forall|j: int| k < j < s.drop_last().len() implies s.drop_last()[j] != c by {
            assert(s.drop_last()[j] == s[j]);
        }
        if k >= 0 {
            assert(s.drop_last()[k] == s[k]);
        }
        lemma_last_index_of_is(s.drop_last(), c, k);
    }
}

proof fn lemma_first_index_of_is(s: Seq<char>, c: char, k: int)
    requires
        0 <= k <= s.len(),
        k < s.len() ==> s[k] == c,
        forall|j: int| 0 <= j < k ==> s[j] != c,
    ensures
        first_index_of(s, c) == k,
    decreases s.len(),
{
    if s.len() > 0 && k > 0 {
        assert(s[0] != c);
        assert forall|j: int| 0 <= j < k - 1 implies s.drop_first()[j] != c by {
            assert(s.drop_first()[j] == s[j + 1]);
        }
        if k < s.len() {
            assert(s.drop_first()[k - 1] == s[k]);
        }
        lemma_first_index_of_is(s.drop_first(), c, k - 1);
    }
}

/// The stem of an application id: the part after the last `!` (what
/// `split('!').last()` yields), cut before its first `.`.
pub open spec fn app_id_stem(raw: Seq<char>) -> Seq<char> {
    let after = raw.subrange(last_index_of(raw, '!') + 1, raw.len() as int);
    after.subrange(0, first_index_of(after, '.'))
}

/// The display name of an application id: its stem with the first
/// character uppercased and the rest lowercased.
pub open spec fn cleaned_app_name(raw: Seq<char>) -> Seq<char> {
    let stem = app_id_stem(raw);
    if stem.len() == 0 {
        Seq::empty()
    } else {
        unicode_uppercase_char(stem[0]) + unicode_lowercase(stem.drop_first())
    }
}

proof fn lemma_last_index_of_facts(s: Seq<char>, c: char)
    ensures
        -1 <= last_index_of(s, c) < s.len(),
        last_index_of(s, c) >= 0 ==> s[last_index_of(s, c)] == c,
        forall|j: int| last_index_of(s, c) < j < s.len() ==> #[trigger] s[j] != c,
    decreases s.len(),
{
    if s.len() > 0 && s.last() != c {
        lemma_last_index_of_facts(s.drop_last(), c);
        assert forall|j: int| last_index_of(s, c) < j < s.len() implies #[trigger] s[j] != c by {
            if j < s.len() - 1 {
                assert(s[j] == s.drop_last()[j]);
            }
        }
        if last_index_of(s, c) >= 0 {
            assert(s[last_index_of(s, c)] == s.drop_last()[last_index_of(s, c)]);
        }
    }
}

proof fn lemma_first_index_of_facts(s: Seq<char>, c: char)
    ensures
        0 <= first_index_of(s, c) <= s.len(),
        first_index_of(s, c) < s.len() ==> s[first_index_of(s, c)] == c,
        forall|j: int| 0 <= j < first_index_of(s, c) ==> #[trigger] s[j] != c,
    decreases s.len(),
{
    if s.len() > 0 && s[0] != c {
        lemma_first_index_of_facts(s.drop_first(), c);
        assert forall|j: int| 0 <= j < first_index_of(s, c) implies #[trigger] s[j] != c by {
            if j > 0 {
                assert(s[j] == s.drop_first()[j - 1]);
            }
        }
        if first_index_of(s, c) < s.len() {
            assert(s[first_index_of(s, c)] == s.drop_first()[first_index_of(s, c) - 1]);
        }
    }
}

/// The stem of an application id is the run of characters right after its
/// last `!` (or from its start when it has none) up to the first `.` that
/// follows: it holds neither `!` nor `.`, and an id holding neither is its
/// own stem.
pub proof fn lemma_app_id_stem(raw: Seq<char>)
    ensures
        forall|i: int|
            0 <= i < app_id_stem(raw).len() ==> #[trigger] app_id_stem(raw)[i] != '!'
                && app_id_stem(raw)[i] != '.',
        ({
            let start = last_index_of(raw, '!') + 1;
            &&& 0 <= start <= raw.len()
            &&& start + app_id_stem(raw).len() <= raw.len()
            &&& forall|i: int|
                0 <= i < app_id_stem(raw).len() ==> #[trigger] app_id_stem(raw)[i] == raw[start + i]
            &&& start + app_id_stem(raw).len() < raw.len() ==> raw[start + app_id_stem(raw).len()]
                == '.'
            &&& start > 0 ==> raw[start - 1] == '!'
        }),
        (forall|i: int| 0 <= i < raw.len() ==> raw[i] != '!' && raw[i] != '.') ==> app_id_stem(raw)
            == raw,
{
    lemma_last_index_of_facts(raw, '!');
    let start = last_index_of(raw, '!') + 1;
    let after = raw.subrange(start, raw.len() as int);
    lemma_first_index_of_facts(after, '.');
    let stem = app_id_stem(raw);
    assert forall|i: int| 0 <= i < stem.len() implies #[trigger] stem[i] != '!' && stem[i] != '.' by {
        assert(stem[i] == after[i]);
        assert(after[i] == raw[start + i]);
    }
    if start + stem.len() < raw.len() {
        assert(after[stem.len() as int] == raw[start + stem.len()]);
    }
    if forall|i: int| 0 <= i < raw.len() ==> raw[i] != '!' && raw[i] != '.' {
        if last_index_of(raw, '!') >= 0 {
            assert(raw[last_index_of(raw, '!')] == '!');
        }
        assert(start == 0);
        if first_index_of(after, '.') < after.len() {
            assert(after[first_index_of(after, '.')] == raw[first_index_of(after, '.')]);
        }
        assert(stem =~= raw);
    }
}

/// The Wikipedia search names the artist and the album when the album is
/// known (not empty and not "Unknown Album"), and the artist and the
/// cleaned title otherwise; the two are separated by one space.
pub proof fn lemma_wiki_search_text(artist: Seq<char>, clean_title: Seq<char>, album: Seq<char>)
    ensures
        album.len() != 0 && album != "Unknown Album"@ ==> wiki_search_text(artist, clean_title, album)
            == artist + seq![' '] + album,
        album.len() == 0 || album == "Unknown Album"@ ==> wiki_search_text(
            artist,
            clean_title,
            album,
        ) == artist + seq![' '] + clean_title,
{
    reveal_strlit(" ");
    assert(" "@ =~= seq![' ']);
}

/// The display name of an all-ASCII application id: its stem with the
/// first character in ASCII uppercase and the rest in ASCII lowercase.
pub open spec fn ascii_cleaned_app_name(raw: Seq<char>) -> Seq<char> {
    let stem = app_id_stem(raw);
    if stem.len() == 0 {
        Seq::empty()
    } else {
        seq![ascii_upper(stem[0])] + ascii_lowercase(stem.drop_first())
    }
}

/// Turns a media session's application id (`"Spotify.exe"`,
/// `"Microsoft.ZuneMusic_8wekyb3d8bbwe!Microsoft.ZuneMusic"`) into a display
/// name (`"Spotify"`, `"Microsoft"`).
pub fn clean_app_name(raw_id: &str) -> (r: String)
    ensures
        r@ == cleaned_app_name(raw_id@),
        is_ascii_chars(raw_id@) ==> r@ == ascii_cleaned_app_name(raw_id@),
{
    let chars = chars_of(raw_id);
    let n: usize = chars.len();
    // position just after the last '!'
    let mut start: usize = n;
    while start > 0 && chars[start - 1] != '!'
        invariant
            start <= n,
            n == chars@.len(),
            forall|j: int| start <= j < n ==> chars@[j] != '!',
        decreases start,
    {
        start = start - 1;
    }
    proof {
        lemma_last_index_of_is(raw_id@, '!', start - 1);
    }
    let mut end: usize = start;
    while end < n && chars[end] != '.'
        invariant
            start <= end <= n,
            n == chars@.len(),
            forall|j: int| start <= j < end ==> chars@[j] != '.',
        decreases n - end,
    {
        end = end + 1;
    }
    let ghost after = raw_id@.subrange(start as int, n as int);
    proof {
        assert forall|j: int| 0 <= j < end - start implies after[j] != '.' by {
            assert(after[j] == chars@[start + j]);
        }
        if end < n {
            assert(after[end - start] == chars@[end as int]);
        }
        lemma_first_index_of_is(after, '.', end - start);
    }
    if end == start {
        return String::new();
    }
    let first = chars[start];
    let mut rest: Vec<char> = Vec::new();
    let mut i: usize = start + 1;
    while i < end
        invariant
            start < i <= end <= n,
            n == chars@.len(),
            rest@ == chars@.subrange(start + 1, i as int),
        decreases end - i,
    {
        rest.push(chars[i]);
        i = i + 1;
    }
    let upper = char_to_uppercase(first);
    let rest_text = string_from_chars(rest.as_slice());
    let lower = to_lowercase(rest_text.as_str());
    let r = concat(upper.as_str(), lower.as_str());
    proof {
        let stem = app_id_stem(raw_id@);
        assert(stem =~= chars@.subrange(start as int, end as int));
        assert(stem.drop_first() =~= rest@);
        if is_ascii_chars(raw_id@) {
            assert(stem[0] == raw_id@[start as int]);
            assert(is_ascii_chars(rest_text@)) by {
                assert forall|j: int| 0 <= j < rest_text@.len() implies '\0' <= #[trigger] rest_text@[j]
                    <= '\u{7f}' by {
                    assert(rest_text@[j] == raw_id@[start + 1 + j]);
                }
            }
        }
    }
    r
}

// =====================================================================
// Wikipedia lookup
// =====================================================================

/// The search sent to Wikipedia: "artist album" when the album is known,
/// "artist title" otherwise.
pub open spec fn wiki_search_text(artist: Seq<char>, clean_title: Seq<char>, album: Seq<char>) -> Seq<char> {
    if album.len() != 0 && album != "Unknown Album"@ {
        artist + " "@ + album
    } else {
        artist + " "@ + clean_title
    }
}

/// The search text for the Wikipedia API, from the artist, the cleaned
/// title (see `sanitize_title`) and the album.
pub fn wiki_search_query(artist: &str, clean_title: &str, album: &str) -> (q: String)
    ensures
        q@ == wiki_search_text(artist@, clean_title@, album@),
{
    let with_space = concat(artist, " ");
    if !album.is_empty() && !crate::text::same_text(album, "Unknown Album") {
        concat(with_space.as_str(), album)
    } else {
        concat(with_space.as_str(), clean_title)
    }
}

/// The Wikipedia search text and the fallback search address for a track,
/// from its raw title cleaned with `sanitize_title`; `None` for the titles
/// on which the clean-up would panic.
pub fn wiki_lookup_texts(artist: &str, title: &str, album: &str) -> (r: Option<(String, String)>)
    ensures
        sanitized_title(title@) matches Some(clean) ==> (r matches Some((q, f)) && q@
            == wiki_search_text(artist@, clean, album@) && f@ == wiki_fallback_link(artist@, clean)),
        sanitized_title(title@) is None ==> r is None,
{
    if title_can_be_sanitized(title) {
        let clean = sanitize_title(title);
        let query = wiki_search_query(artist, clean.as_str(), album);
        let fallback = wiki_fallback_url(artist, clean.as_str());
        Some((query, fallback))
    } else {
        None
    }
}

/// Whether a search result is accepted as being about the track: its
/// title mentions the artist or (when there is one) the album, or its
/// snippet mentions the artist, all compared in lowercase.
pub open spec fn wiki_result_matches(
    artist: Seq<char>,
    album: Seq<char>,
    result_title: Seq<char>,
    snippet: Seq<char>,
) -> bool {
    let t = unicode_lowercase(result_title);
    let a = unicode_lowercase(artist);
    ||| contains_seq(t, a)
    ||| (album.len() != 0 && contains_seq(t, unicode_lowercase(album)))
    ||| contains_seq(unicode_lowercase(snippet), a)
}

/// `wiki_result_matches` for all-ASCII texts, with ASCII lowercase.
pub open spec fn ascii_wiki_result_matches(
    artist: Seq<char>,
    album: Seq<char>,
    result_title: Seq<char>,
    snippet: Seq<char>,
) -> bool {
    let t = ascii_lowercase(result_title);
    let a = ascii_lowercase(artist);
    ||| contains_seq(t, a)
    ||| (album.len() != 0 && contains_seq(t, ascii_lowercase(album)))
    ||| contains_seq(ascii_lowercase(snippet), a)
}

/// `s` with every `+` replaced by `_`.
pub open spec fn plus_to_underscore(s: Seq<char>) -> Seq<char> {
    s.map_values(|c: char| if c == '+' { '_' } else { c })
}

/// Every `+` of a text becomes `_` and every other character is kept, so
/// the result holds no `+` at all.
pub proof fn lemma_plus_to_underscore(s: Seq<char>)
    ensures
        plus_to_underscore(s).len() == s.len(),
        forall|i: int|
            0 <= i < s.len() ==> #[trigger] plus_to_underscore(s)[i] == (if s[i] == '+' {
                '_'
            } else {
                s[i]
            }),
        forall|i: int| 0 <= i < s.len() ==> #[trigger] plus_to_underscore(s)[i] != '+',
{
}

/// An article address holds no `+`: every space of the title (encoded as
/// `+`) appears as `_`, and the title's other characters are encoded.
pub proof fn lemma_article_link_has_no_plus(result_title: Seq<char>)
    ensures
        forall|i: int|
            0 <= i < wiki_article_link(result_title).len() ==> #[trigger] wiki_article_link(
                result_title,
            )[i] != '+',
{
    reveal_strlit("https://en.wikipedia.org/wiki/");
    let prefix = "https://en.wikipedia.org/wiki/"@;
    let slug = plus_to_underscore(url_encoded(encode_utf8(result_title)));
    lemma_plus_to_underscore(url_encoded(encode_utf8(result_title)));
    assert forall|i: int| 0 <= i < (prefix + slug).len() implies #[trigger] (prefix + slug)[i]
        != '+' by {
        if i < prefix.len() {
            assert((prefix + slug)[i] == prefix[i]);
        } else {
            assert((prefix + slug)[i] == slug[i - prefix.len()]);
        }
    }
}

/// The article address for a result title.
pub open spec fn wiki_article_link(result_title: Seq<char>) -> Seq<char> {
    "https://en.wikipedia.org/wiki/"@ + plus_to_underscore(url_encoded(encode_utf8(result_title)))
}

/// The snippet text, empty when the result has none.
pub open spec fn snippet_text(snippet: Option<&str>) -> Seq<char> {
    match snippet {
        Some(s) => s@,
        None => ""@,
    }
}

fn replace_plus(s: &str) -> (r: String)
    ensures
        r@ == plus_to_underscore(s@),
{
    let chars = chars_of(s);
    let mut out = String::new();
    let mut i: usize = 0;
    while i < chars.len()
        invariant
            i <= chars@.len(),
            chars@ == s@,
            out@ == plus_to_underscore(s@.subrange(0, i as int)),
        decreases chars.len() - i,
    {
        let c = chars[i];
        push_char(&mut out, if c == '+' { '_' } else { c });
        proof {
            assert(plus_to_underscore(s@.subrange(0, i + 1)) =~= plus_to_underscore(
                s@.subrange(0, i as int),
            ).push(if c == '+' { '_' } else { c }));
        }
        i = i + 1;
    }
    assert(s@.subrange(0, chars@.len() as int) =~= s@);
    out
}

/// The Wikipedia article address for the first search result, when the
/// result is accepted as being about the track; `None` otherwise.
pub fn wiki_article_url(artist: &str, album: &str, result_title: &str, snippet: Option<&str>) -> (r:
    Option<String>)
    ensures
        wiki_result_matches(artist@, album@, result_title@, snippet_text(snippet)) ==> (r matches Some(
            u) && u@ == wiki_article_link(result_title@)),
        !wiki_result_matches(artist@, album@, result_title@, snippet_text(snippet)) ==> r is None,
        is_ascii_chars(artist@) && is_ascii_chars(album@) && is_ascii_chars(result_title@)
            && is_ascii_chars(snippet_text(snippet)) ==> (r is Some <==> ascii_wiki_result_matches(
            artist@,
            album@,
            result_title@,
            snippet_text(snippet),
        )),
{
    let title_lower = to_lowercase(result_title);
    let artist_lower = to_lowercase(artist);
    let album_lower = to_lowercase(album);
    let snip = match snippet {
        Some(s) => s,
        None => "",
    };
    let snippet_lower = to_lowercase(snip);
    let title_has_artist = contains_str(title_lower.as_str(), artist_lower.as_str());
    let title_has_album = !album.is_empty() && contains_str(
        title_lower.as_str(),
        album_lower.as_str(),
    );
    let snippet_has_artist = contains_str(snippet_lower.as_str(), artist_lower.as_str());
    if title_has_artist || title_has_album || snippet_has_artist {
        let encoded = url_encode(result_title);
        let slug = replace_plus(encoded.as_str());
        Some(concat("https://en.wikipedia.org/wiki/", slug.as_str()))
    } else {
        None
    }
}

/// One result of the Wikipedia search API, as far as the lookup reads it:
/// its title and its text snippet, each where present.
#[derive(Debug)]
pub struct WikiSearchHit {
    pub title: Option<String>,
    pub snippet: Option<String>,
}

/// The article address for a list of search results: that of the first
/// result, when it has a title and is accepted as being about the track
/// (see `wiki_article_url`); `None` otherwise.
pub fn wiki_article_for_results(artist: &str, album: &str, hits: &Vec<WikiSearchHit>) -> (r: Option<
    String,
>)
    ensures
        hits@.len() == 0 ==> r is None,
        hits@.len() > 0 ==> match hits@[0].title {
            None => r is None,
            Some(t) => {
                &&& wiki_result_matches(artist@, album@, t@, text_or(hits@[0].snippet, ""@)) ==> (
                r matches Some(u) && u@ == wiki_article_link(t@))
                &&& !wiki_result_matches(artist@, album@, t@, text_or(hits@[0].snippet, ""@))
                    ==> r is None
            },
        },
{
    if hits.len() == 0 {
        return None;
    }
    let first = &hits[0];
    match &first.title {
        None => None,
        Some(t) => {
            let snippet: Option<&str> = match &first.snippet {
                Some(x) => Some(x.as_str()),
                None => None,
            };
            wiki_article_url(artist, album, t.as_str(), snippet)
        },
    }
}

/// The search page used when no article is found.
pub open spec fn wiki_fallback_link(artist: Seq<char>, clean_title: Seq<char>) -> Seq<char> {
    "https://duckduckgo.com/?q="@ + url_encoded(
        encode_utf8(artist + " "@ + clean_title + " music"@),
    )
}

/// The web search address used when no article is found.
pub fn wiki_fallback_url(artist: &str, clean_title: &str) -> (r: String)
    ensures
        r@ == wiki_fallback_link(artist@, clean_title@),
{
    let a = concat(artist, " ");
    let b = concat(a.as_str(), clean_title);
    let query = concat(b.as_str(), " music");
    let encoded = url_encode(query.as_str());
    concat("https://duckduckgo.com/?q=", encoded.as_str())
}

// =====================================================================
// Monitor decisions
// =====================================================================

/// `s` joined with `sep` between consecutive parts.
pub open spec fn joined(parts: Seq<Seq<char>>, sep: Seq<char>) -> Seq<char>
    decreases parts.len(),
{
    if parts.len() == 0 {
        Seq::empty()
    } else if parts.len() == 1 {
        parts[0]
    } else {
        joined(parts.drop_last(), sep) + sep + parts.last()
    }
}

/// The view of each string of a list.
pub open spec fn string_views(parts: Seq<String>) -> Seq<Seq<char>> {
    parts.map_values(|p: String| p@)
}

/// The parts joined with `sep`, as `slice::join` gives it.
pub fn join_strings(parts: &Vec<String>, sep: &str) -> (r: String)
    ensures
        r@ == joined(string_views(parts@), sep@),
{
    let mut r = String::new();
    let mut i: usize = 0;
    while i < parts.len()
        invariant
            i <= parts@.len(),
            r@ == joined(string_views(parts@.subrange(0, i as int)), sep@),
        decreases parts.len() - i,
    {
        let ghost prev = string_views(parts@.subrange(0, i as int));
        let ghost next = string_views(parts@.subrange(0, i + 1));
        proof {
            assert(next.drop_last() =~= prev);
            assert(next.last() == parts@[i as int]@);
        }
        if i == 0 {
            r = parts[i].clone();
            proof {
                assert(next.len() == 1);
            }
        } else {
            r = concat(r.as_str(), sep);
            r = concat(r.as_str(), parts[i].as_str());
        }
        i = i + 1;
    }
    assert(parts@.subrange(0, parts@.len() as int) =~= parts@);
    r
}

/// The text fields of a track as the desktop media interface (MPRIS)
/// reports them, with the defaults used when one is missing: "Unknown
/// Title", the artists joined by ", " or "Unknown Artist", and an empty
/// album.
pub fn mpris_track_text(title: Option<&str>, artists: Option<&Vec<String>>, album: Option<&str>) -> (r: (
    String,
    String,
    String,
))
    ensures
        r.0@ == (match title {
            Some(t) => t@,
            None => "Unknown Title"@,
        }),
        r.1@ == (match artists {
            Some(a) => joined(string_views(a@), ", "@),
            None => "Unknown Artist"@,
        }),
        r.2@ == (match album {
            Some(a) => a@,
            None => ""@,
        }),
{
    let t = match title {
        Some(t) => t.to_owned(),
        None => "Unknown Title".to_owned(),
    };
    let a = match artists {
        Some(list) => join_strings(list, ", "),
        None => "Unknown Artist".to_owned(),
    };
    let b = match album {
        Some(x) => x.to_owned(),
        None => "".to_owned(),
    };
    (t, a, b)
}

/// Where album art named by an address is loaded from.
#[derive(Debug, PartialEq)]
pub enum ArtLocation {
    /// A local file, by its decoded path.
    LocalFile(String),
    /// A web address, fetched as it is.
    Web(String),
    /// An address of another kind: no art is loaded.
    Unsupported,
}

/// Where the art of an address is loaded from: a "file://" address names
/// the local file whose path is the rest of the address (all leading
/// "file://" removed) with its percent escapes decoded; an "http://" or
/// "https://" address is fetched from the web; nothing else is loaded.
pub fn art_location(art_url: &str) -> (r: ArtLocation)
    ensures
        has_prefix(art_url@, "file://"@) ==> (r matches ArtLocation::LocalFile(p) && p@
            == url_decoded(strip_all_prefixes(art_url@, "file://"@))),
        !has_prefix(art_url@, "file://"@) && (has_prefix(art_url@, "http://"@) || has_prefix(
            art_url@,
            "https://"@,
        )) ==> (r matches ArtLocation::Web(u) && u@ == art_url@),
        !has_prefix(art_url@, "file://"@) && !has_prefix(art_url@, "http://"@) && !has_prefix(
            art_url@,
            "https://"@,
        ) ==> r is Unsupported,
{
    if starts_with_text(art_url, "file://") {
        let path = trim_start_matches_text(art_url, "file://");
        ArtLocation::LocalFile(url_decode(path.as_str()))
    } else if starts_with_text(art_url, "http://") || starts_with_text(art_url, "https://") {
        ArtLocation::Web(art_url.to_owned())
    } else {
        ArtLocation::Unsupported
    }
}

/// Whether the album art address changed since the last poll, in which
/// case the art is loaded again.
pub fn art_url_changed(current: &Option<String>, cached: &Option<String>) -> (r: bool)
    ensures
        r == !(match (current, cached) {
            (Some(a), Some(b)) => a@ == b@,
            (None, None) => true,
            _ => false,
        }),
{
    match (current, cached) {
        (Some(a), Some(b)) => !crate::text::same_text(a.as_str(), b.as_str()),
        (None, None) => false,
        _ => true,
    }
}

/// What base64's `STANDARD.decode` yields for a text: the decoded bytes,
/// or `None` where it reports an error.
pub uninterp spec fn base64_standard_decode(text: Seq<char>) -> Option<Seq<u8>>;

/// base64's `general_purpose::STANDARD.decode` (standard alphabet, padding
/// required), with the error turned into `None`. The result is stated only
/// as a function of the text.
#[verifier::external_body]
fn decode_base64(text: &str) -> (r: Option<Vec<u8>>)
    ensures
        art_view(r) == base64_standard_decode(text@),
{
    match base64::engine::general_purpose::STANDARD.decode(text) {
        Ok(bytes) => Some(bytes),
        Err(_) => None,
    }
}

/// The fields that the player script reports as JSON, each absent where
/// the JSON has no string (or boolean) under that key.
pub struct ScriptReport {
    pub app: Option<String>,
    pub title: Option<String>,
    pub artist: Option<String>,
    pub album: Option<String>,
    pub playing: Option<bool>,
    pub art_base64: Option<String>,
    pub art_url: Option<String>,
}

/// One track state reported by the player script.
pub struct ScriptTrack {
    pub title: String,
    pub artist: String,
    pub album: String,
    pub source_app: String,
    pub is_playing: bool,
    pub album_art: Option<Vec<u8>>,
}

/// The view of an optional string, the empty text when absent.
pub open spec fn text_or(s: Option<String>, default: Seq<char>) -> Seq<char> {
    match s {
        Some(t) => t@,
        None => default,
    }
}

/// Whether the report carries a non-empty base64 image.
pub open spec fn report_has_base64(r: ScriptReport) -> bool {
    r.art_base64 matches Some(b) && b@.len() != 0
}

/// The decoded image of a report, when it carries a non-empty one that
/// decodes.
pub open spec fn report_art(r: ScriptReport) -> Option<Seq<u8>> {
    if report_has_base64(r) {
        base64_standard_decode(r.art_base64->0@)
    } else {
        None
    }
}

/// The art address that the caller downloads: the report's non-empty
/// address, when the report carries no art that decodes.
pub open spec fn report_download(r: ScriptReport) -> Option<Seq<char>> {
    if report_art(r) is None && (r.art_url matches Some(x) && x@.len() != 0) {
        Some(r.art_url->0@)
    } else {
        None
    }
}

/// The view of an optional string.
pub open spec fn text_option(s: Option<String>) -> Option<Seq<char>> {
    match s {
        Some(t) => Some(t@),
        None => None,
    }
}

fn owned_or(s: &Option<String>, default: &str) -> (r: String)
    ensures
        r@ == text_or(*s, default@),
{
    match s {
        Some(t) => t.clone(),
        None => default.to_owned(),
    }
}

/// The JSON text of the player script's output: the trimmed output, or
/// `None` when the script reported no player ("null" or nothing).
pub fn script_output_json(raw: &str) -> (r: Option<String>)
    ensures
        r is Some <==> (trimmed(raw@) != "null"@ && trimmed(raw@).len() != 0),
        r matches Some(t) ==> t@ == trimmed(raw@),
{
    let t = trim(raw);
    if crate::text::same_text(t.as_str(), "null") || t.as_str().is_empty() {
        None
    } else {
        Some(t)
    }
}

/// Turns the player script's report into a track state. When the title
/// and artist are those of the track already known, no art is taken (the
/// caller keeps its cached art). Otherwise the embedded base64 art is
/// decoded; when there is none, or it does not decode, and the report
/// names a non-empty art address, that address is returned for the caller
/// to download.
pub fn track_from_script_report(report: &ScriptReport, known_title: &str, known_artist: &str) -> (r: (
    ScriptTrack,
    Option<String>,
))
    ensures
        r.0.title@ == text_or(report.title, ""@),
        r.0.artist@ == text_or(report.artist, ""@),
        r.0.album@ == text_or(report.album, ""@),
        r.0.source_app@ == text_or(report.app, "Unknown"@),
        r.0.is_playing == (report.playing == Some(true)),
        ({
            let same = text_or(report.title, ""@) == known_title@ && text_or(report.artist, ""@)
                == known_artist@;
            &&& same ==> art_view(r.0.album_art) is None && r.1 is None
            &&& !same ==> art_view(r.0.album_art) == report_art(*report)
            &&& !same ==> text_option(r.1) == report_download(*report)
        }),
{
    let title = owned_or(&report.title, "");
    let artist = owned_or(&report.artist, "");
    let album = owned_or(&report.album, "");
    let app = owned_or(&report.app, "Unknown");
    let is_playing = match report.playing {
        Some(p) => p,
        None => false,
    };
    let same = crate::text::same_text(title.as_str(), known_title) && crate::text::same_text(
        artist.as_str(),
        known_artist,
    );
    if same {
        return (
            ScriptTrack { title, artist, album, source_app: app, is_playing, album_art: None },
            None,
        );
    }
    let mut art: Option<Vec<u8>> = None;
    if let Some(b64) = &report.art_base64 {
        if !b64.as_str().is_empty() {
            art = decode_base64(b64.as_str());
        }
    }
    let mut download: Option<String> = None;
    if art.is_none() {
        if let Some(url) = &report.art_url {
            if !url.as_str().is_empty() {
                download = Some(url.clone());
            }
        }
    }
    (ScriptTrack { title, artist, album, source_app: app, is_playing, album_art: art }, download)
}

/// The art remembered by the script-based monitor, with the title and
/// artist of the track it belongs to.
pub struct ScriptArtCache {
    pub art: Option<Vec<u8>>,
    pub title: String,
    pub artist: String,
}

/// The plain content of a `ScriptArtCache`.
pub struct ScriptArtCacheView {
    pub art: Option<Seq<u8>>,
    pub title: Seq<char>,
    pub artist: Seq<char>,
}

impl View for ScriptArtCache {
    type V = ScriptArtCacheView;

    open spec fn view(&self) -> ScriptArtCacheView {
        ScriptArtCacheView { art: art_view(self.art), title: self.title@, artist: self.artist@ }
    }
}

/// One cache step on a track's art: art that came with the track is
/// remembered; a track without art gets the remembered art when it is the
/// same track, and otherwise the cache is reset to the new track.
/// Returns the new cache and the art the track ends up with.
pub open spec fn script_cache_step(
    cache: ScriptArtCacheView,
    title: Seq<char>,
    artist: Seq<char>,
    art: Option<Seq<u8>>,
) -> (ScriptArtCacheView, Option<Seq<u8>>) {
    if art is Some {
        (ScriptArtCacheView { art, title, artist }, art)
    } else if title == cache.title && artist == cache.artist {
        (cache, cache.art)
    } else {
        (ScriptArtCacheView { art: None, title, artist }, None)
    }
}

impl ScriptArtCache {
    /// An empty cache.
    pub fn new() -> (c: ScriptArtCache)
        ensures
            c@.art is None,
            c@.title == Seq::<char>::empty(),
            c@.artist == Seq::<char>::empty(),
    {
        ScriptArtCache { art: None, title: String::new(), artist: String::new() }
    }

    /// Applies the cache to a freshly reported track: see
    /// `script_cache_step`.
    pub fn apply(&mut self, track: &mut ScriptTrack)
        ensures
            (final(self)@, art_view(final(track).album_art)) == script_cache_step(
                old(self)@,
                old(track).title@,
                old(track).artist@,
                art_view(old(track).album_art),
            ),
            final(track).title == old(track).title,
            final(track).artist == old(track).artist,
            final(track).album == old(track).album,
            final(track).source_app == old(track).source_app,
            final(track).is_playing == old(track).is_playing,
    {
        if track.album_art.is_some() {
            self.art = copy_art(&track.album_art);
            self.title = track.title.clone();
            self.artist = track.artist.clone();
        } else if track.title == self.title && track.artist == self.artist {
            track.album_art = copy_art(&self.art);
        } else {
            self.art = None;
            self.title = track.title.clone();
            self.artist = track.artist.clone();
        }
    }
}

/// Art remembered for a track is handed back when the same track is
/// reported again without art.
pub proof fn lemma_script_cache_remembers(
    cache: ScriptArtCacheView,
    title: Seq<char>,
    artist: Seq<char>,
    art: Seq<u8>,
)
    ensures
        ({
            let after = script_cache_step(cache, title, artist, Some(art)).0;
            script_cache_step(after, title, artist, None).1 == Some(art)
        }),
{
}

/// Art reported with a track is kept as it is; a track reported without
/// art gets remembered art only when both its title and its artist are
/// those of the remembered track, and otherwise gets none and becomes the
/// remembered track.
pub proof fn lemma_script_cache_matches_whole_track(
    cache: ScriptArtCacheView,
    title: Seq<char>,
    artist: Seq<char>,
    art: Option<Seq<u8>>,
)
    ensures
        art is Some ==> script_cache_step(cache, title, artist, art).1 == art,
        art is None && (title != cache.title || artist != cache.artist) ==> ({
            let (after, shown) = script_cache_step(cache, title, artist, art);
            &&& shown is None
            &&& after.title == title && after.artist == artist && after.art is None
        }),
        art is None && title == cache.title && artist == cache.artist ==> script_cache_step(
            cache,
            title,
            artist,
            art,
        ) == (cache, cache.art),
{
}

/// The art remembered by the session-based monitor, keyed by the title and
/// artist of the track it belongs to.
pub struct SessionArtCache {
    pub key: Option<(String, String)>,
    pub art: Option<Vec<u8>>,
}

impl SessionArtCache {
    /// An empty cache.
    pub fn new() -> (c: SessionArtCache)
        ensures
            c.key is None,
            art_view(c.art) is None,
    {
        SessionArtCache { key: None, art: None }
    }

    /// The remembered art when the cache holds the track `(title, artist)`,
    /// `None` when the art has to be fetched.
    pub fn lookup(&self, title: &str, artist: &str) -> (r: Option<Option<Vec<u8>>>)
        ensures
            lookup_view(r) == session_lookup(*self, title@, artist@),
    {
        match &self.key {
            Some(k) => {
                if crate::text::same_text(k.0.as_str(), title) && crate::text::same_text(
                    k.1.as_str(),
                    artist,
                ) {
                    Some(copy_art(&self.art))
                } else {
                    None
                }
            },
            None => None,
        }
    }

    /// Remembers the art fetched for the track `(title, artist)`; looking
    /// that track up afterwards gives this art back.
    pub fn remember(&mut self, title: &str, artist: &str, art: &Option<Vec<u8>>)
        ensures
            session_lookup(*final(self), title@, artist@) == Some(art_view(*art)),
    {
        self.key = Some((title.to_owned(), artist.to_owned()));
        self.art = copy_art(art);
    }
}

/// A lookup hits only the remembered track: it gives the remembered art
/// exactly when both the title and the artist equal the remembered ones,
/// and nothing (the art is fetched) for any other track, even one by the
/// same artist.
pub proof fn lemma_session_lookup_needs_same_track(
    c: SessionArtCache,
    title: Seq<char>,
    artist: Seq<char>,
)
    ensures
        session_lookup(c, title, artist) is Some <==> (c.key matches Some(k) && k.0@ == title
            && k.1@ == artist),
        session_lookup(c, title, artist) matches Some(a) ==> a == art_view(c.art),
{
}

/// The plain content of a lookup result.
pub open spec fn lookup_view(r: Option<Option<Vec<u8>>>) -> Option<Option<Seq<u8>>> {
    match r {
        Some(a) => Some(art_view(a)),
        None => None,
    }
}

/// What a lookup of `(title, artist)` gives: the remembered art when the
/// cache holds that track.
pub open spec fn session_lookup(c: SessionArtCache, title: Seq<char>, artist: Seq<char>) -> Option<
    Option<Seq<u8>>,
> {
    match c.key {
        Some(k) => if k.0@ == title && k.1@ == artist {
            Some(art_view(c.art))
        } else {
            None
        },
        None => None,
    }
}

// =====================================================================
// Platform managers
// =====================================================================

/// Playback commands sent to the system's media player.
pub trait MediaController {
    fn try_play_pause(&self);

    fn try_next(&self);

    fn try_prev(&self);
}

/// The media manager of platforms without media integration.
pub struct DummyMediaManager;

impl DummyMediaManager {
    pub fn new() -> (m: Self) {
        DummyMediaManager
    }
}

impl MediaController for DummyMediaManager {
    fn try_play_pause(&self) {
    }

    fn try_next(&self) {
    }

    fn try_prev(&self) {
    }
}

/// The media manager of Linux desktops (MPRIS over D-Bus).
pub struct LinuxMediaManager;

impl LinuxMediaManager {
    pub fn new() -> (m: Self) {
        LinuxMediaManager
    }
}

/// The media manager of macOS (player scripting); it sends no commands.
pub struct MacMediaManager;

impl MacMediaManager {
    pub fn new() -> (m: Self) {
        MacMediaManager
    }
}

impl MediaController for MacMediaManager {
    fn try_play_pause(&self) {
    }

    fn try_next(&self) {
    }

    fn try_prev(&self) {
    }
}

/// The media manager of Windows (system media transport controls).
pub struct WindowsMediaManager;

impl WindowsMediaManager {
    pub fn new() -> (m: Self) {
        WindowsMediaManager
    }
}

} // verus!
