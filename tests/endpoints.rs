use audio_relay::catalog::{
    get_spotify_token, normalize_track, search_request, search_spotify_tracks, spotify_search, token_request_form,
    token_url, CatalogConfig, TrackFields,
};
use audio_relay::endpoint::{producer_args, producer_program, stream_headers, stream_youtube, validate_youtube_id, watch_url};
use audio_relay::error::AudioStreamError;
use audio_relay::lookup::{lookup_args, resolve_trimmed, search_query, yt_search_id};

#[test]
fn identifiers_of_wrong_length_are_refused() {
    for id in ["", "abc", "dQw4w9WgXc", "dQw4w9WgXcQQ", "ééééééé"] {
        let r = stream_youtube(id);
        assert_eq!(r, Err(AudioStreamError::InvalidYouTubeId));
        assert_eq!(AudioStreamError::InvalidYouTubeId.status_code(), 400);
    }
}

#[test]
fn well_formed_identifier_gives_producer_arguments() {
    let args = stream_youtube("dQw4w9WgXcQ").unwrap();
    assert_eq!(
        args,
        vec!["-x", "--audio-format", "mp3", "-o", "-", "https://www.youtube.com/watch?v=dQw4w9WgXcQ"]
    );
    assert_eq!(validate_youtube_id("dQw4w9WgXcQ"), Ok(()));
    assert_eq!(watch_url("x"), "https://www.youtube.com/watch?v=x");
    assert_eq!(producer_args("u").len(), 6);
    assert_eq!(producer_program(), "yt-dlp");
}

#[test]
fn stream_headers_are_audio_and_uncached() {
    let h = stream_headers();
    assert_eq!(h[0], ("content-type".to_string(), "audio/mpeg".to_string()));
    assert_eq!(h[1], ("cache-control".to_string(), "no-cache".to_string()));
}

#[test]
fn lookup_query_joins_title_and_artist() {
    let q = search_query("Shape of You", Some("Ed Sheeran"));
    assert_eq!(q, "Shape of You Ed Sheeran");
    assert_eq!(search_query("Shape of You", None), "Shape of You");
    assert_eq!(lookup_args(&q), vec!["--get-id", "ytsearch1:Shape of You Ed Sheeran"]);
}

#[test]
fn lookup_returns_the_single_identifier_line() {
    let r = yt_search_id(true, b"JGwWNGJdvx8\n");
    assert_eq!(r, Ok("JGwWNGJdvx8".to_string()));
    let r = yt_search_id(true, b"  \t abc \r\n");
    assert_eq!(r, Ok("abc".to_string()));
}

#[test]
fn lookup_with_empty_output_is_a_client_error() {
    let r = yt_search_id(true, b"");
    assert_eq!(r, Err(AudioStreamError::InvalidYouTubeId));
    assert_eq!(r.unwrap_err().status_code(), 400);
    assert_eq!(yt_search_id(true, b" \n"), Err(AudioStreamError::InvalidYouTubeId));
    assert_eq!(yt_search_id(false, b"JGwWNGJdvx8\n"), Err(AudioStreamError::InvalidYouTubeId));
    assert_eq!(resolve_trimmed(true, "x"), Ok("x".to_string()));
    assert_eq!(resolve_trimmed(true, ""), Err(AudioStreamError::InvalidYouTubeId));
}

fn config(id: Option<&str>, secret: Option<&str>) -> CatalogConfig {
    CatalogConfig { client_id: id.map(|s| s.to_string()), client_secret: secret.map(|s| s.to_string()) }
}

#[test]
fn missing_credentials_are_server_errors() {
    let r = spotify_search(Some("q".to_string()), &config(None, Some("s")));
    let e = r.err().unwrap();
    assert_eq!(e, AudioStreamError::EnvVarError("SPOTIFY_CLIENT_ID".to_string()));
    assert_eq!(e.status_code(), 500);
    let r = spotify_search(Some("q".to_string()), &config(Some("i"), None));
    let e = r.err().unwrap();
    assert_eq!(e, AudioStreamError::EnvVarError("SPOTIFY_CLIENT_SECRET".to_string()));
    assert_eq!(e.status_code(), 500);
    assert_eq!(e.message(), "Missing environment variable: SPOTIFY_CLIENT_SECRET");
}

#[test]
fn missing_query_is_a_client_error() {
    let e = spotify_search(None, &config(Some("i"), Some("s"))).err().unwrap();
    assert_eq!(e, AudioStreamError::MissingField("query".to_string()));
    assert_eq!(e.status_code(), 400);
    assert_eq!(e.message(), "Missing field: query");
    assert_eq!(AudioStreamError::SpotifyError("x".to_string()).status_code(), 502);
}

#[test]
fn plan_carries_basic_authorization() {
    let plan = spotify_search(Some("hello".to_string()), &config(Some("a"), Some("b"))).ok().unwrap();
    assert_eq!(plan.query, "hello");
    assert_eq!(plan.token_authorization, "Basic YTpi");
    assert_eq!(token_url(), "https://accounts.spotify.com/api/token");
    assert_eq!(token_request_form(), vec![("grant_type".to_string(), "client_credentials".to_string())]);
}

#[test]
fn token_field_decides_the_exchange() {
    assert_eq!(get_spotify_token(Some("tok".to_string())), Ok("tok".to_string()));
    assert_eq!(
        get_spotify_token(None),
        Err(AudioStreamError::SpotifyError("Missing access token".to_string()))
    );
}

#[test]
fn search_request_encodes_the_query() {
    let r = search_request("tok", "Shape of You & more");
    assert_eq!(r.url, "https://api.spotify.com/v1/search?q=Shape%20of%20You%20%26%20more&type=track&limit=10");
    assert_eq!(r.authorization, "Bearer tok");
}

#[test]
fn zero_hits_give_an_empty_list() {
    assert!(search_spotify_tracks(Some(vec![])).is_empty());
    assert!(search_spotify_tracks(None).is_empty());
}

#[test]
fn missing_fields_become_empty_strings() {
    let f = TrackFields {
        id: Some("id1".to_string()),
        name: None,
        artist_names: Some(vec![Some("Ed Sheeran".to_string()), None]),
        artwork_url: None,
    };
    let t = normalize_track(&f);
    assert_eq!(t.id, "id1");
    assert_eq!(t.name, "");
    assert_eq!(t.artists, vec!["Ed Sheeran".to_string(), String::new()]);
    assert_eq!(t.artwork, "");
    let g = TrackFields { id: None, name: Some("n".to_string()), artist_names: None, artwork_url: Some("u".to_string()) };
    let ts = search_spotify_tracks(Some(vec![f, g]));
    assert_eq!(ts.len(), 2);
    assert_eq!(ts[1].name, "n");
    assert!(ts[1].artists.is_empty());
    assert_eq!(ts[1].artwork, "u");
}

#[test]
fn error_messages_read_as_before() {
    assert_eq!(AudioStreamError::InvalidYouTubeId.message(), "Invalid YouTube ID or video not found");
    assert_eq!(AudioStreamError::InternalError.message(), "Internal server error");
    assert_eq!(AudioStreamError::ProcessError("x".to_string()).message(), "Failed to execute yt-dlp: x");
    assert_eq!(AudioStreamError::SpotifyError("y".to_string()).message(), "Spotify API error: y");
}
