use vstd::prelude::*;
use vstd::string::StringExecFns;
use crate::error::AudioStreamError;

verus! {

/// The free text searched for: the title, followed by a space and the
/// artist when one is given.
pub open spec fn search_query_of(title: Seq<char>, artist: Option<Seq<char>>) -> Seq<char> {
    match artist {
        Some(a) => title + " "@ + a,
        None => title,
    }
}

/// The lookup tool's arguments: print the identifier of the first hit.
pub open spec fn lookup_args_of(query: Seq<char>) -> Seq<Seq<char>> {
    seq!["--get-id"@, "ytsearch1:"@ + query]
}

/// The text of an optional string.
pub open spec fn opt_text(o: Option<&str>) -> Option<Seq<char>> {
    match o {
        Some(a) => Some(a@),
        None => None,
    }
}

/// A result with its string replaced by the string's text.
pub open spec fn text_result(r: Result<String, AudioStreamError>) -> Result<Seq<char>, AudioStreamError> {
    match r {
        Ok(s) => Ok(s@),
        Err(e) => Err(e),
    }
}

/// Unicode's White_Space property, which `char::is_whitespace` tests.
pub open spec fn is_white_space(c: char) -> bool {
    ||| '\u{9}' <= c <= '\u{d}'
    ||| c == ' '
    ||| c == '\u{85}'
    ||| c == '\u{a0}'
    ||| c == '\u{1680}'
    ||| '\u{2000}' <= c <= '\u{200a}'
    ||| c == '\u{2028}'
    ||| c == '\u{2029}'
    ||| c == '\u{202f}'
    ||| c == '\u{205f}'
    ||| c == '\u{3000}'
}

/// `r` is `s` without its leading and trailing white space.
pub open spec fn is_trim_of(s: Seq<char>, r: Seq<char>) -> bool {
    exists|i: int, j: int|
        0 <= i <= j <= s.len() && r == s.subrange(i, j) && (forall|k: int|
            0 <= k < i ==> is_white_space(#[trigger] s[k])) && (forall|k: int|
            j <= k < s.len() ==> is_white_space(#[trigger] s[k])) && (i < j ==> !is_white_space(
            s[i],
        ) && !is_white_space(s[j - 1]))
}

/// The text that `String::from_utf8_lossy` makes of some bytes: valid UTF-8
/// decoded, each invalid sequence replaced by U+FFFD.
pub uninterp spec fn lossy_text_of(b: Seq<u8>) -> Seq<char>;

/// Relies on `String::from_utf8_lossy`: the text depends on the bytes alone,
/// and no bytes give no text.
#[verifier::external_body]
fn decode_lossy(b: &[u8]) -> (r: String)
    ensures
        r@ == lossy_text_of(b@),
        b@.len() == 0 ==> r@.len() == 0,
{
    String::from_utf8_lossy(b).into_owned()
}

/// Relies on `str::trim`: it removes leading and trailing white space, as
/// `char::is_whitespace` defines it.
#[verifier::external_body]
fn trim_white_space(s: &str) -> (r: &str)
    ensures
        is_trim_of(s@, r@),
{
    s.trim()
}

/// The free text searched for.
pub fn search_query(title: &str, artist: Option<&str>) -> (r: String)
    ensures
        r@ == search_query_of(title@, opt_text(artist)),
{
    match artist {
        Some(a) => String::from_str(title).concat(" ").concat(a),
        None => String::from_str(title),
    }
}

/// The lookup tool's argument list for `query`.
pub fn lookup_args(query: &str) -> (r: Vec<String>)
    ensures
        r@.map_values(|s: String| s@) == lookup_args_of(query@),
{
    let mut v: Vec<String> = Vec::new();
    v.push(String::from_str("--get-id"));
    v.push(String::from_str("ytsearch1:").concat(query));
    assert(v@.map_values(|s: String| s@) =~= lookup_args_of(query@));
    v
}

/// The outcome of a lookup, from whether the tool succeeded and its trimmed
/// output: a failed run or an empty output is an invalid-input error.
pub open spec fn lookup_outcome(success: bool, trimmed: Seq<char>) -> Result<Seq<char>, AudioStreamError> {
    if !success || trimmed.len() == 0 {
        Err(AudioStreamError::InvalidYouTubeId)
    } else {
        Ok(trimmed)
    }
}

/// Decides a lookup from the tool's exit status and its already trimmed output.
pub fn resolve_trimmed(success: bool, trimmed: &str) -> (r: Result<String, AudioStreamError>)
    ensures
        text_result(r) == lookup_outcome(success, trimmed@),
{
    if !success {
        return Err(AudioStreamError::InvalidYouTubeId);
    }
    if trimmed.is_empty() {
        return Err(AudioStreamError::InvalidYouTubeId);
    }
    Ok(String::from_str(trimmed))
}

/// Decides a lookup from the tool's exit status and raw output: the output is
/// decoded, trimmed, and must not be empty.
pub fn yt_search_id(success: bool, stdout: &[u8]) -> (r: Result<String, AudioStreamError>)
    ensures
        exists|t: Seq<char>|
            is_trim_of(lossy_text_of(stdout@), t) && text_result(r) == lookup_outcome(success, t),
        stdout@.len() == 0 ==> r is Err,
{
    let text = decode_lossy(stdout);
    let trimmed = trim_white_space(text.as_str());
    let r = resolve_trimmed(success, trimmed);
    proof {
        if stdout@.len() == 0 {
            let (i, j) = choose|i: int, j: int|
                0 <= i <= j <= text@.len() && trimmed@ == text@.subrange(i, j) && (forall|k: int|
                    0 <= k < i ==> is_white_space(#[trigger] text@[k])) && (forall|k: int|
                    j <= k < text@.len() ==> is_white_space(#[trigger] text@[k])) && (i < j
                    ==> !is_white_space(text@[i]) && !is_white_space(text@[j - 1]));
            assert(trimmed@.len() == 0);
        }
    }
    r
}

} // verus!
