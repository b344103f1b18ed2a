use vstd::prelude::*;
use vstd::string::{StringExecFns, StringSliceAdditionalSpecFns};
use crate::error::{AudioStreamError, status_of, is_client_error};

verus! {

/// The most results one catalog search returns.
pub const SEARCH_LIMIT: u32 = 10;

/// The two credentials of the catalog service, read once at startup.
pub struct CatalogConfig {
    pub client_id: Option<String>,
    pub client_secret: Option<String>,
}

/// What the first outbound call needs: the query to search for later, and
/// the `Authorization` value for the token exchange.
pub struct CatalogPlan {
    pub query: String,
    pub token_authorization: String,
}

/// The fields of one search hit as the catalog sent them; any may be absent.
pub struct TrackFields {
    pub id: Option<String>,
    pub name: Option<String>,
    pub artist_names: Option<Vec<Option<String>>>,
    pub artwork_url: Option<String>,
}

/// One normalized track record.
pub struct SpotifyTrack {
    pub id: String,
    pub name: String,
    pub artists: Vec<String>,
    pub artwork: String,
}

/// The standard base64 encoding, with padding, of some bytes.
pub uninterp spec fn base64_of(b: Seq<u8>) -> Seq<char>;

/// Relies on base64's `STANDARD.encode`: padded standard base64 of the input.
/// It panics only when the output, four bytes for every three, cannot be
/// sized or allocated, which the bound excludes.
#[verifier::external_body]
fn encode_base64(b: &[u8]) -> (r: String)
    requires
        b@.len() <= isize::MAX / 2,
    ensures
        r@ == base64_of(b@),
        r@.len() == 4 * ((b@.len() + 2) / 3),
{
    base64::Engine::encode(&base64::engine::general_purpose::STANDARD, b)
}

/// An ASCII letter, digit, `-`, `.`, `_` or `~`: a byte that percent-encoding
/// keeps.
pub open spec fn is_unreserved(c: u8) -> bool {
    ||| 48 <= c <= 57
    ||| 65 <= c <= 90
    ||| 97 <= c <= 122
    ||| c == 45 || c == 46 || c == 95 || c == 126
}

/// The upper-case hexadecimal digit of `d`, below sixteen.
pub open spec fn hex_digit(d: u8) -> char {
    if d < 10 {
        ((48 + d) as u8) as char
    } else {
        ((55 + d) as u8) as char
    }
}

/// The percent-encoding of some bytes: an unreserved byte stands for
/// itself, any other is written `%` and two upper-case hexadecimal digits.
pub open spec fn percent_encoded_bytes(b: Seq<u8>) -> Seq<char>
    decreases b.len(),
{
    if b.len() == 0 {
        Seq::empty()
    } else {
        let c = b[0];
        (if is_unreserved(c) {
            seq![c as char]
        } else {
            seq!['%', hex_digit(c / 16), hex_digit(c % 16)]
        }) + percent_encoded_bytes(b.drop_first())
    }
}

/// The percent-encoding of a text: that of its UTF-8 bytes.
pub open spec fn percent_encoded_of(s: Seq<char>) -> Seq<char> {
    percent_encoded_bytes(vstd::utf8::encode_utf8(s))
}

/// Relies on `urlencoding::encode`: it percent-encodes the text's UTF-8
/// bytes, keeping only unreserved ones.
#[verifier::external_body]
fn percent_encode(s: &str) -> (r: String)
    ensures
        r@ == percent_encoded_of(s@),
{
    urlencoding::encode(s).into_owned()
}

/// The `Authorization` value of the token exchange.
pub open spec fn basic_authorization_of(id: Seq<char>, secret: Seq<char>) -> Seq<char> {
    "Basic "@ + base64_of(vstd::utf8::encode_utf8(id + ":"@ + secret))
}

/// `e` is a catalog error with message `m`.
pub open spec fn is_spotify_error(e: AudioStreamError, m: Seq<char>) -> bool {
    e matches AudioStreamError::SpotifyError(s) && s@ == m
}

/// `e` reports that the request lacks the field `name`.
pub open spec fn is_missing_field(e: AudioStreamError, name: Seq<char>) -> bool {
    e matches AudioStreamError::MissingField(s) && s@ == name
}

/// `e` reports the missing configuration value `name`.
pub open spec fn is_env_var_error(e: AudioStreamError, name: Seq<char>) -> bool {
    e matches AudioStreamError::EnvVarError(s) && s@ == name
}

/// The credentials joined for basic authentication are longer than any
/// encoder can take.
pub open spec fn credentials_too_long(id: Seq<char>, secret: Seq<char>) -> bool {
    vstd::utf8::encode_utf8(id + ":"@ + secret).len() > isize::MAX / 2
}

/// Prepares a catalog search, before any outbound call: the query is checked
/// first, then each credential; on success the plan holds the query and the
/// `Authorization` value of the token exchange.
pub fn spotify_search(query: Option<String>, config: &CatalogConfig) -> (r: Result<CatalogPlan, AudioStreamError>)
    ensures
        query is None ==> (r matches Err(e) && is_missing_field(e, "query"@) && is_client_error(
            status_of(e),
        )),
        query is Some && config.client_id is None ==> (r matches Err(e) && is_env_var_error(
            e,
            "SPOTIFY_CLIENT_ID"@,
        )),
        query is Some && config.client_id is Some && config.client_secret is None ==> (r matches Err(
            e,
        ) && is_env_var_error(e, "SPOTIFY_CLIENT_SECRET"@)),
        query is Some && config.client_id is Some && config.client_secret is Some ==> {
            let id = config.client_id->0@;
            let secret = config.client_secret->0@;
            if credentials_too_long(id, secret) {
                r matches Err(e) && is_spotify_error(e, "Credentials too long"@)
            } else {
                r matches Ok(plan) && plan.query@ == query->0@ && plan.token_authorization@
                    == basic_authorization_of(id, secret)
            }
        },
{
    let q = match query {
        None => {
            return Err(AudioStreamError::MissingField(String::from_str("query")));
        },
        Some(q) => q,
    };
    let id = match &config.client_id {
        None => {
            return Err(AudioStreamError::EnvVarError(String::from_str("SPOTIFY_CLIENT_ID")));
        },
        Some(id) => id,
    };
    let secret = match &config.client_secret {
        None => {
            return Err(AudioStreamError::EnvVarError(String::from_str("SPOTIFY_CLIENT_SECRET")));
        },
        Some(s) => s,
    };
    let joined = String::from_str(id.as_str()).concat(":").concat(secret.as_str());
    let bytes = joined.as_str().as_bytes();
    if bytes.len() > (isize::MAX / 2) as usize {
        return Err(AudioStreamError::SpotifyError(String::from_str("Credentials too long")));
    }
    let encoded = encode_base64(bytes);
    let auth = String::from_str("Basic ").concat(encoded.as_str());
    Ok(CatalogPlan { query: q, token_authorization: auth })
}

/// The token-issuance endpoint.
pub fn token_url() -> (r: String)
    ensures
        r@ == "https://accounts.spotify.com/api/token"@,
{
    String::from_str("https://accounts.spotify.com/api/token")
}

/// The form of the token exchange: the client-credentials grant.
pub fn token_request_form() -> (r: Vec<(String, String)>)
    ensures
        r@.len() == 1,
        r@[0].0@ == "grant_type"@ && r@[0].1@ == "client_credentials"@,
{
    let mut v: Vec<(String, String)> = Vec::new();
    v.push((String::from_str("grant_type"), String::from_str("client_credentials")));
    v
}

/// Reads the outcome of the token exchange from the `access_token` field of
/// its answer, when that field is a string: a missing token is a catalog
/// error.
pub fn get_spotify_token(access_token: Option<String>) -> (r: Result<String, AudioStreamError>)
    ensures
        access_token matches Some(t) ==> (r matches Ok(u) && u@ == t@),
        access_token is None ==> (r matches Err(e) && is_spotify_error(e, "Missing access token"@)),
{
    match access_token {
        Some(t) => Ok(t),
        None => Err(AudioStreamError::SpotifyError(String::from_str("Missing access token"))),
    }
}

/// The search call: its URL and its `Authorization` value.
pub struct SearchRequest {
    pub url: String,
    pub authorization: String,
}

/// The URL of a track search for `query`, limited to ten results.
pub open spec fn search_url_of(query: Seq<char>) -> Seq<char> {
    "https://api.spotify.com/v1/search?q="@ + percent_encoded_of(query) + "&type=track&limit=10"@
}

/// The search call for `query` made with the bearer `token`.
pub fn search_request(token: &str, query: &str) -> (r: SearchRequest)
    ensures
        r.url@ == search_url_of(query@),
        r.authorization@ == "Bearer "@ + token@,
{
    let encoded = percent_encode(query);
    let url = String::from_str("https://api.spotify.com/v1/search?q=").concat(encoded.as_str()).concat(
        "&type=track&limit=10",
    );
    let authorization = String::from_str("Bearer ").concat(token);
    SearchRequest { url, authorization }
}

/// The text of an optional string, or the empty text.
pub open spec fn or_empty(o: Option<String>) -> Seq<char> {
    match o {
        Some(s) => s@,
        None => Seq::empty(),
    }
}

/// The contributor names of a hit, each missing one as the empty text.
pub open spec fn names_of(o: Option<Vec<Option<String>>>) -> Seq<Seq<char>> {
    match o {
        Some(v) => v@.map_values(|x: Option<String>| or_empty(x)),
        None => Seq::empty(),
    }
}

/// `t` is the normalized record of the hit `f`: missing fields become empty.
pub open spec fn normalizes(f: TrackFields, t: SpotifyTrack) -> bool {
    &&& t.id@ == or_empty(f.id)
    &&& t.name@ == or_empty(f.name)
    &&& t.artists@.map_values(|s: String| s@) == names_of(f.artist_names)
    &&& t.artwork@ == or_empty(f.artwork_url)
}

/// The text of an optional string, or a new empty string.
fn text_or_empty(o: &Option<String>) -> (r: String)
    ensures
        r@ == or_empty(*o),
{
    match o {
        Some(s) => s.clone(),
        None => String::new(),
    }
}

/// Normalizes one search hit.
pub fn normalize_track(f: &TrackFields) -> (t: SpotifyTrack)
    ensures
        normalizes(*f, t),
{
    let mut artists: Vec<String> = Vec::new();
    match &f.artist_names {
        Some(names) => {
            let mut i: usize = 0;
            while i < names.len()
                invariant
                    i <= names@.len(),
                    artists@.map_values(|s: String| s@) == names@.subrange(0, i as int).map_values(
                        |x: Option<String>| or_empty(x),
                    ),
                decreases names@.len() - i,
            {
                let name = text_or_empty(&names[i]);
                proof {
                    assert(names@.subrange(0, i + 1) =~= names@.subrange(0, i as int).push(names@[i as int]));
                }
                let ghost prev = artists@;
                artists.push(name);
                proof {
                    assert(artists@.map_values(|s: String| s@) =~= prev.map_values(|s: String| s@).push(
                        name@,
                    ));
                    assert(names@.subrange(0, i + 1).map_values(|x: Option<String>| or_empty(x))
                        =~= names@.subrange(0, i as int).map_values(|x: Option<String>| or_empty(x)).push(
                        or_empty(names@[i as int]),
                    ));
                    assert(artists@.map_values(|s: String| s@) =~= names@.subrange(0, i + 1).map_values(
                        |x: Option<String>| or_empty(x),
                    ));
                }
                i = i + 1;
            }
            assert(names@.subrange(0, names@.len() as int) =~= names@);
        },
        None => {
            assert(artists@.map_values(|s: String| s@) =~= Seq::<Seq<char>>::empty());
        },
    }
    SpotifyTrack {
        id: text_or_empty(&f.id),
        name: text_or_empty(&f.name),
        artists,
        artwork: text_or_empty(&f.artwork_url),
    }
}

/// Normalizes the hits of a search answer, in order; an answer without a
/// list of hits gives no records.
pub fn search_spotify_tracks(items: Option<Vec<TrackFields>>) -> (r: Vec<SpotifyTrack>)
    ensures
        items is None ==> r@.len() == 0,
        items matches Some(v) ==> r@.len() == v@.len() && forall|i: int|
            0 <= i < v@.len() ==> normalizes(#[trigger] v@[i], r@[i]),
{
    let mut out: Vec<SpotifyTrack> = Vec::new();
    match &items {
        Some(v) => {
            let mut i: usize = 0;
            while i < v.len()
                invariant
                    i <= v@.len(),
                    out@.len() == i,
                    forall|k: int| 0 <= k < i ==> normalizes(#[trigger] v@[k], out@[k]),
                decreases v@.len() - i,
            {
                let t = normalize_track(&v[i]);
                out.push(t);
                i = i + 1;
            }
        },
        None => {},
    }
    out
}

} // verus!
