use thulani_audio::errors::PlaybackError;
use thulani_audio::pipeline::{
    decoder_args, format_timestamp, pad_with_silence, resolver_args, transcoder_args,
    POST_SILENCE_BYTES, PRE_SILENCE_BYTES,
};
use thulani_audio::ytdl::ytdl_url;

#[test]
fn timestamps_are_zero_padded() {
    assert_eq!(format_timestamp(0), "00:00:00");
    assert_eq!(format_timestamp(3723), "01:02:03");
    assert_eq!(format_timestamp(59), "00:00:59");
    assert_eq!(format_timestamp(3600), "01:00:00");
    // 5514 hours, 19 minutes, 58 seconds.
    assert_eq!(format_timestamp(19851598), "5514:19:58");
}

#[test]
fn decoder_args_with_and_without_clip() {
    assert_eq!(
        decoder_args("http://cdn/video", Some(3723), Some(7266)),
        vec![
            "-i",
            "http://cdn/video",
            "-ss",
            "01:02:03",
            "-to",
            "02:01:06",
            "-ac",
            "2",
            "-ar",
            "48000",
            "-f",
            "s16le",
            "-acodec",
            "pcm_s16le",
            "-",
        ]
    );
    // A missing start reads as the beginning of the media.
    assert_eq!(decoder_args("u", None, Some(60))[2..4], ["-ss", "00:00:00"]);
    // Without a clip end there is no clip window at all.
    assert_eq!(
        decoder_args("u", Some(5), None),
        vec![
            "-i", "u", "-ac", "2", "-ar", "48000", "-f", "s16le", "-acodec", "pcm_s16le", "-",
        ]
    );
}

#[test]
fn transcoder_and_resolver_args() {
    assert_eq!(
        transcoder_args(),
        vec![
            "-format", "opus", "-i", "pipe:0", "-acodec", "pcm_s16le", "-f", "s16le", "-",
        ]
    );
    assert_eq!(
        resolver_args("https://example.com/watch?v=x"),
        vec![
            "-f",
            "webm[abr>0]/bestaudio/best",
            "--no-playlist",
            "--print-json",
            "--skip-download",
            "https://example.com/watch?v=x",
        ]
    );
}

#[test]
fn silence_padding_wraps_the_stream() {
    assert_eq!(PRE_SILENCE_BYTES, 144000);
    assert_eq!(POST_SILENCE_BYTES, 19200);

    let pcm = vec![1u8, 2, 3, 4];
    let padded = pad_with_silence(pcm.clone());
    assert_eq!(padded.len(), PRE_SILENCE_BYTES + 4 + POST_SILENCE_BYTES);
    assert!(padded[..PRE_SILENCE_BYTES].iter().all(|&b| b == 0));
    assert_eq!(&padded[PRE_SILENCE_BYTES..PRE_SILENCE_BYTES + 4], &pcm[..]);
    assert!(padded[PRE_SILENCE_BYTES + 4..].iter().all(|&b| b == 0));
}

#[test]
fn resolver_output_yields_the_stream_url() {
    let out = br#"{"title": "some video", "url": "https://cdn.example.com/stream.webm"}"#;
    assert_eq!(
        ytdl_url(true, out),
        Ok("https://cdn.example.com/stream.webm".to_owned())
    );
}

#[test]
fn resolver_failures_are_resolution_errors() {
    // The process failed outright.
    assert_eq!(ytdl_url(false, b"{}"), Err(PlaybackError::Resolution));
    // Not JSON at all.
    assert_eq!(ytdl_url(true, b"not json"), Err(PlaybackError::Resolution));
    // JSON, but not an object.
    assert_eq!(ytdl_url(true, b"[1, 2]"), Err(PlaybackError::Resolution));
    // An object without a url.
    assert_eq!(
        ytdl_url(true, br#"{"title": "x"}"#),
        Err(PlaybackError::Resolution)
    );
    // A url that is not a string.
    assert_eq!(
        ytdl_url(true, br#"{"url": 5}"#),
        Err(PlaybackError::Resolution)
    );
}

#[test]
fn playback_error_messages() {
    assert_eq!(PlaybackError::Resolution.message(), "what the fuck");
    assert_eq!(PlaybackError::Transcode.message(), "unable to call ffmpeg");
    assert_eq!(
        PlaybackError::Connection.message(),
        "something happened somewhere somehow."
    );
}
