//! Reading a track reference out of a link, and the query used to look a
//! title up when no link is given.

use vstd::prelude::*;
use vstd::string::*;

verus! {

/// Why a request's track reference could not be resolved.
#[derive(Clone, Copy, PartialEq, Eq, Structural, Debug)]
pub enum ResolveError {
    /// The link holds neither a `spotify:track:` URI nor an
    /// `https://open.spotify.com/track/` link.
    NoTrackLink,
    /// The identifier is not a 22-character base62 number that fits 128 bits.
    InvalidId,
}

/// A character of a track identifier: an ASCII letter or digit.
pub open spec fn is_id_char(c: char) -> bool {
    ('a' <= c && c <= 'z') || ('A' <= c && c <= 'Z') || ('0' <= c && c <= '9')
}

/// The URI form that introduces a track identifier.
pub open spec fn uri_prefix() -> Seq<char> {
    "spotify:track:"@
}

/// The web-link form that introduces a track identifier.
pub open spec fn link_prefix() -> Seq<char> {
    "https://open.spotify.com/track/"@
}

/// `p` occurs in `s` at position `i`, followed by at least one identifier character.
pub open spec fn introduces_id_at(s: Seq<char>, i: int, p: Seq<char>) -> bool {
    &&& 0 <= i
    &&& i + p.len() < s.len()
    &&& s.subrange(i, i + p.len()) == p
    &&& is_id_char(s[i + p.len()])
}

/// The end of the run of identifier characters that starts at `j`.
pub open spec fn id_run_end(s: Seq<char>, j: int) -> int
    decreases s.len() - j,
{
    if j < 0 || j >= s.len() || !is_id_char(s[j]) {
        j
    } else {
        id_run_end(s, j + 1)
    }
}

/// The identifier of the leftmost track reference at or after position `i`:
/// the longest run of identifier characters behind its prefix.
pub open spec fn track_id_from(s: Seq<char>, i: int) -> Option<Seq<char>>
    decreases s.len() - i,
{
    if i < 0 || i >= s.len() {
        None
    } else if introduces_id_at(s, i, uri_prefix()) {
        let j = i + uri_prefix().len();
        Some(s.subrange(j, id_run_end(s, j)))
    } else if introduces_id_at(s, i, link_prefix()) {
        let j = i + link_prefix().len();
        Some(s.subrange(j, id_run_end(s, j)))
    } else {
        track_id_from(s, i + 1)
    }
}

/// The identifier of the first track reference in `s`, if any.
pub open spec fn first_track_id(s: Seq<char>) -> Option<Seq<char>> {
    track_id_from(s, 0)
}

/// Relies on regex::Regex::captures with the pattern
/// `(?:spotify:track:|https://open\.spotify\.com/track/)([a-zA-Z0-9]+)`:
/// under the crate's leftmost-first semantics the first match starts at the
/// leftmost position where either prefix is followed by an identifier
/// character, and its greedy group takes the whole run of such characters.
#[verifier::external_body]
fn capture_track_id(s: &str) -> (r: Option<String>)
    ensures
        match r {
            Some(id) => first_track_id(s@) == Some(id@),
            None => first_track_id(s@) is None,
        },
{
    let re = regex::Regex::new(r"(?:spotify:track:|https://open\.spotify\.com/track/)([a-zA-Z0-9]+)")
        .unwrap();
    re.captures(s).and_then(|c| c.get(1)).map(|m| m.as_str().to_string())
}

/// The identifier of the first track URI or track link in `payload_url`.
pub fn extract_spotify_id(payload_url: &str) -> (r: Result<String, ResolveError>)
    ensures
        match r {
            Ok(id) => first_track_id(payload_url@) == Some(id@),
            Err(e) => e == ResolveError::NoTrackLink && first_track_id(payload_url@) is None,
        },
{
    match capture_track_id(payload_url) {
        Some(id) => Ok(id),
        None => Err(ResolveError::NoTrackLink),
    }
}


/// A track of the streaming backend, by its 128-bit identifier.
#[derive(Clone, Copy, PartialEq, Eq, Structural, Debug)]
pub struct TrackRef {
    pub id: u128,
}

/// The value of a base62 digit: `0-9`, then `a-z`, then `A-Z`.
pub open spec fn base62_digit(c: char) -> int {
    if '0' <= c && c <= '9' {
        c as int - '0' as int
    } else if 'a' <= c && c <= 'z' {
        c as int - 'a' as int + 10
    } else {
        c as int - 'A' as int + 36
    }
}

/// The number that the base62 digits of `s` spell, most significant first.
pub open spec fn base62_value(s: Seq<char>) -> int
    decreases s.len(),
{
    if s.len() == 0 {
        0
    } else {
        base62_value(s.drop_last()) * 62 + base62_digit(s.last())
    }
}

/// The identifier that a 22-digit base62 string names, when it fits 128 bits.
pub open spec fn base62_id(s: Seq<char>) -> Option<u128> {
    if s.len() == 22 && (forall|i: int| 0 <= i < s.len() ==> is_id_char(#[trigger] s[i]))
        && base62_value(s) <= u128::MAX {
        Some(base62_value(s) as u128)
    } else {
        None
    }
}

/// Relies on librespot's SpotifyId::from_base62: it accepts exactly 22 bytes
/// of `0-9a-zA-Z`, accumulates them in base 62 with checked arithmetic, and
/// fails on any other byte or on overflow.
#[verifier::external_body]
fn id_from_base62(s: &str) -> (r: Option<u128>)
    ensures
        r == base62_id(s@),
{
    librespot::core::spotify_id::SpotifyId::from_base62(s).ok().map(|id| id.id)
}

/// Reads a base62 track identifier.
pub fn parse_track_id(id: &str) -> (r: Result<TrackRef, ResolveError>)
    ensures
        match base62_id(id@) {
            Some(v) => r == Ok::<TrackRef, ResolveError>(TrackRef { id: v }),
            None => r == Err::<TrackRef, ResolveError>(ResolveError::InvalidId),
        },
{
    match id_from_base62(id) {
        Some(v) => Ok(TrackRef { id: v }),
        None => Err(ResolveError::InvalidId),
    }
}

/// The track that a link names: the first track URI or link in it, whose
/// identifier must be a valid base62 identifier.
pub open spec fn link_track(url: Seq<char>) -> Result<TrackRef, ResolveError> {
    match first_track_id(url) {
        None => Err(ResolveError::NoTrackLink),
        Some(id) => match base62_id(id) {
            Some(v) => Ok(TrackRef { id: v }),
            None => Err(ResolveError::InvalidId),
        },
    }
}

/// Resolves a track link to the track it names.
pub fn resolve_link(url: &str) -> (r: Result<TrackRef, ResolveError>)
    ensures
        r == link_track(url@),
{
    let id = extract_spotify_id(url)?;
    parse_track_id(id.as_str())
}

/// How a request's track is found.
#[derive(Clone, Copy, PartialEq, Eq, Structural, Debug)]
pub enum Lookup {
    /// The link named the track.
    Direct(TrackRef),
    /// No link was given: the title is to be searched for.
    Search,
}

/// Decides how to find the track of a request: an empty link means a title
/// search, anything else must name a track.
pub fn plan_lookup(url: &str) -> (r: Result<Lookup, ResolveError>)
    ensures
        url@.len() == 0 ==> r == Ok::<Lookup, ResolveError>(Lookup::Search),
        url@.len() != 0 ==> r == match link_track(url@) {
            Ok(t) => Ok::<Lookup, ResolveError>(Lookup::Direct(t)),
            Err(e) => Err(e),
        },
{
    if url.is_empty() {
        Ok(Lookup::Search)
    } else {
        let t = resolve_link(url)?;
        Ok(Lookup::Direct(t))
    }
}

/// Percent-encoding of `s` as a URL query component.
pub uninterp spec fn percent_encoded(s: Seq<char>) -> Seq<char>;

/// A character that percent-encoding leaves as it is.
pub open spec fn is_unreserved(c: char) -> bool {
    is_id_char(c) || c == '-' || c == '_' || c == '.' || c == '~'
}

/// Relies on urlencoding::encode: every byte but ASCII letters, digits and
/// `-_.~` becomes `%XX`, so a string of those characters alone is unchanged.
#[verifier::external_body]
fn url_encode(s: &str) -> (r: String)
    ensures
        r@ == percent_encoded(s@),
        (forall|i: int| 0 <= i < s@.len() ==> is_unreserved(#[trigger] s@[i])) ==> r@ == s@,
{
    urlencoding::encode(s).into_owned()
}

/// The search request that finds the top track for a free-text title.
pub open spec fn search_url_spec(query: Seq<char>) -> Seq<char> {
    "https://api.spotify.com/v1/search?q="@ + percent_encoded(query) + "&type=track&limit=1"@
}

/// The URL of the search for the top track matching `query`.
pub fn search_url(query: &str) -> (r: String)
    ensures
        r@ == search_url_spec(query@),
{
    let encoded = url_encode(query);
    let r = String::from_str("https://api.spotify.com/v1/search?q=");
    let r = r.concat(encoded.as_str());
    r.concat("&type=track&limit=1")
}

/// The authorization header value that carries an access token.
pub fn bearer_value(token: &str) -> (r: String)
    ensures
        r@ == "Bearer "@ + token@,
{
    String::from_str("Bearer ").concat(token)
}

} // verus!
