use vstd::prelude::*;
use vstd::string::{StringExecFns, StringSliceAdditionalSpecFns};
use crate::error::{AudioStreamError, status_of, is_client_error};

verus! {

/// Length in bytes of a well-formed video identifier.
pub const YOUTUBE_ID_LEN: usize = 11;

/// The page of a video, from its identifier.
pub open spec fn watch_url_of(id: Seq<char>) -> Seq<char> {
    "https://www.youtube.com/watch?v="@ + id
}

/// The producer's arguments: extract the audio of `url` as mp3 to stdout.
pub open spec fn producer_args_of(url: Seq<char>) -> Seq<Seq<char>> {
    seq!["-x"@, "--audio-format"@, "mp3"@, "-o"@, "-"@, url]
}

/// The texts of a list of strings.
pub open spec fn texts(v: Seq<String>) -> Seq<Seq<char>> {
    v.map_values(|s: String| s@)
}

/// The name of the producer program.
pub fn producer_program() -> (r: String)
    ensures
        r@ == "yt-dlp"@,
{
    String::from_str("yt-dlp")
}

/// The page of the video `id`.
pub fn watch_url(id: &str) -> (r: String)
    ensures
        r@ == watch_url_of(id@),
{
    String::from_str("https://www.youtube.com/watch?v=").concat(id)
}

/// The producer's argument list for the target `url`.
pub fn producer_args(url: &str) -> (r: Vec<String>)
    ensures
        texts(r@) == producer_args_of(url@),
{
    let mut v: Vec<String> = Vec::new();
    v.push(String::from_str("-x"));
    v.push(String::from_str("--audio-format"));
    v.push(String::from_str("mp3"));
    v.push(String::from_str("-o"));
    v.push(String::from_str("-"));
    v.push(String::from_str(url));
    assert(texts(v@) =~= producer_args_of(url@));
    v
}

/// Checks an identifier before anything is started: it must be exactly
/// eleven bytes long.
pub fn validate_youtube_id(id: &str) -> (r: Result<(), AudioStreamError>)
    ensures
        r is Ok <==> id.spec_bytes().len() == YOUTUBE_ID_LEN,
        r is Err ==> r == Err::<(), AudioStreamError>(AudioStreamError::InvalidYouTubeId),
{
    if id.as_bytes().len() != YOUTUBE_ID_LEN {
        Err(AudioStreamError::InvalidYouTubeId)
    } else {
        Ok(())
    }
}

/// Decides a stream request: a malformed identifier is refused with a client
/// error and no producer is started; otherwise the result is the argument
/// list with which the producer is started.
pub fn stream_youtube(youtube_id: &str) -> (r: Result<Vec<String>, AudioStreamError>)
    ensures
        id_len_ok(youtube_id) ==> (r matches Ok(args) && texts(args@) == producer_args_of(
            watch_url_of(youtube_id@),
        )),
        !id_len_ok(youtube_id) ==> r == Err::<Vec<String>, AudioStreamError>(
            AudioStreamError::InvalidYouTubeId,
        ) && is_client_error(status_of(AudioStreamError::InvalidYouTubeId)),
{
    match validate_youtube_id(youtube_id) {
        Err(e) => Err(e),
        Ok(()) => {
            let url = watch_url(youtube_id);
            Ok(producer_args(url.as_str()))
        },
    }
}

/// The identifier has the expected length.
pub open spec fn id_len_ok(id: &str) -> bool {
    id.spec_bytes().len() == YOUTUBE_ID_LEN
}

/// The response headers of a stream: an mp3 byte stream, not to be cached.
pub fn stream_headers() -> (r: Vec<(String, String)>)
    ensures
        r@.len() == 2,
        r@[0].0@ == "content-type"@ && r@[0].1@ == "audio/mpeg"@,
        r@[1].0@ == "cache-control"@ && r@[1].1@ == "no-cache"@,
{
    let mut v: Vec<(String, String)> = Vec::new();
    v.push((String::from_str("content-type"), String::from_str("audio/mpeg")));
    v.push((String::from_str("cache-control"), String::from_str("no-cache")));
    v
}

} // verus!
