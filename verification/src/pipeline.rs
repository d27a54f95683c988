//! The decoder pipeline's computed parts.
//!
//! Turning a playback request into raw PCM runs through external processes:
//! a resolver that turns a remote locator into a streamable URL, a decoder
//! that reads that URL, and a transcoder that reads pre-encoded bytes from
//! its standard input. The caller spawns them; what is computed here is
//! everything those calls are given and everything done to their output:
//! the exact argument lists, the `HH:MM:SS` clip offsets, and the silence
//! padding wrapped around the decoded stream.

use vstd::prelude::*;

verus! {

/// Raw PCM is produced at this many bytes per second: 48 kHz, two
/// channels, two bytes per sample.
pub const PCM_BYTES_PER_SECOND: usize = 48000 * 2 * 2;

/// Silence prepended to a decoded stream, masking join/attach latency so
/// the first audio frames are not clipped: three quarters of a second.
pub const PRE_SILENCE_BYTES: usize = PCM_BYTES_PER_SECOND / 4 * 3;

/// Silence appended to a decoded stream so playback does not cut off
/// abruptly before the handle reports finished: a tenth of a second.
pub const POST_SILENCE_BYTES: usize = PCM_BYTES_PER_SECOND / 10;

/// A run of silent PCM bytes.
pub open spec fn spec_silence(n: int) -> Seq<u8> {
    Seq::new(n as nat, |i: int| 0u8)
}

/// Wrap a decoded PCM stream with the silence lead and trail.
pub fn pad_with_silence(pcm: Vec<u8>) -> (r: Vec<u8>)
    ensures
        r@ == spec_silence(PRE_SILENCE_BYTES as int) + pcm@ + spec_silence(
            POST_SILENCE_BYTES as int,
        ),
{
    let mut out: Vec<u8> = Vec::new();
    let mut i: usize = 0;
    while i < PRE_SILENCE_BYTES
        invariant
            i <= PRE_SILENCE_BYTES,
            out@ =~= spec_silence(i as int),
        decreases PRE_SILENCE_BYTES - i,
    {
        out.push(0);
        i = i + 1;
        proof {
            assert(out@ =~= spec_silence(i as int));
        }
    }
    let mut body = pcm;
    out.append(&mut body);
    let mut j: usize = 0;
    while j < POST_SILENCE_BYTES
        invariant
            j <= POST_SILENCE_BYTES,
            out@ =~= spec_silence(PRE_SILENCE_BYTES as int) + pcm@ + spec_silence(j as int),
        decreases POST_SILENCE_BYTES - j,
    {
        out.push(0);
        j = j + 1;
        proof {
            assert(out@ =~= spec_silence(PRE_SILENCE_BYTES as int) + pcm@ + spec_silence(j as int));
        }
    }
    out
}

/// The decimal digits of a non-negative number, most significant first.
pub open spec fn spec_dec_digits(n: int) -> Seq<char>
    decreases n,
{
    if n < 10 {
        seq![((48 + n) as u8) as char]
    } else {
        spec_dec_digits(n / 10).push(((48 + n % 10) as u8) as char)
    }
}

/// A component of a timestamp: at least two digits, zero-padded.
pub open spec fn spec_pad2(s: Seq<char>) -> Seq<char> {
    if s.len() >= 2 {
        s
    } else {
        seq!['0'] + s
    }
}

/// A clip offset the way the decoder is told about it: `HH:MM:SS`, each
/// part zero-padded to two digits, the hours growing wider as needed.
pub open spec fn spec_format_timestamp(t: int) -> Seq<char> {
    spec_pad2(spec_dec_digits(t / 3600)) + seq![':'] + spec_pad2(spec_dec_digits((t / 60) % 60))
        + seq![':'] + spec_pad2(spec_dec_digits(t % 60))
}

fn digit_str(d: u8) -> (r: &'static str)
    requires
        48 <= d <= 57,
    ensures
        r@.len() == 1,
        r@[0] == d as char,
{
    proof {
        reveal_strlit("0");
        reveal_strlit("1");
        reveal_strlit("2");
        reveal_strlit("3");
        reveal_strlit("4");
        reveal_strlit("5");
        reveal_strlit("6");
        reveal_strlit("7");
        reveal_strlit("8");
        reveal_strlit("9");
    }
    if d == 48 {
        "0"
    } else if d == 49 {
        "1"
    } else if d == 50 {
        "2"
    } else if d == 51 {
        "3"
    } else if d == 52 {
        "4"
    } else if d == 53 {
        "5"
    } else if d == 54 {
        "6"
    } else if d == 55 {
        "7"
    } else if d == 56 {
        "8"
    } else {
        "9"
    }
}

/// Render a number in decimal.
pub fn u64_to_string(n: u64) -> (r: String)
    ensures
        r@ == spec_dec_digits(n as int),
    decreases n,
{
    if n < 10 {
        let d = digit_str((48 + n) as u8);
        let r = d.to_owned();
        proof {
            assert(r@ =~= spec_dec_digits(n as int));
        }
        r
    } else {
        let mut s = u64_to_string(n / 10);
        s.append(digit_str((48 + (n % 10)) as u8));
        proof {
            assert(s@ =~= spec_dec_digits(n as int));
        }
        s
    }
}

fn two_digits(m: u64) -> (r: String)
    requires
        m < 100,
    ensures
        r@ == spec_pad2(spec_dec_digits(m as int)),
{
    let mut s = digit_str((48 + m / 10) as u8).to_owned();
    s.append(digit_str((48 + m % 10) as u8));
    proof {
        if m < 10 {
            assert(s@ =~= spec_pad2(spec_dec_digits(m as int)));
        } else {
            assert(spec_dec_digits(m as int) == spec_dec_digits(
                m as int / 10,
            ).push(((48 + m as int % 10) as u8) as char));
            assert(s@ =~= spec_pad2(spec_dec_digits(m as int)));
        }
    }
    s
}

proof fn lemma_dec_digits_len(n: int)
    ensures
        spec_dec_digits(n).len() >= 1,
        n >= 10 ==> spec_dec_digits(n).len() >= 2,
    decreases n,
{
    if n >= 10 {
        lemma_dec_digits_len(n / 10);
    }
}

/// Format a second count as the decoder expects its clip offsets.
pub fn format_timestamp(t: u64) -> (r: String)
    ensures
        r@ == spec_format_timestamp(t as int),
{
    let hours = t / 3600;
    let mins = (t / 60) % 60;
    let secs = t % 60;
    let mut s = if hours < 10 {
        two_digits(hours)
    } else {
        proof {
            lemma_dec_digits_len(hours as int);
        }
        u64_to_string(hours)
    };
    s.append(":");
    let mm = two_digits(mins);
    s.append(mm.as_str());
    s.append(":");
    let ss = two_digits(secs);
    s.append(ss.as_str());
    proof {
        reveal_strlit(":");
        assert(s@ =~= spec_format_timestamp(t as int));
    }
    s
}

/// The `-ss`/`-to` pair handed to the decoder: present only when a clip
/// end was asked for, with a missing start read as zero.
pub open spec fn spec_clip_opts(start: Option<u64>, end: Option<u64>) -> Seq<Seq<char>> {
    match end {
        Some(e) => seq![
            "-ss"@,
            match start {
                Some(st) => spec_format_timestamp(st as int),
                None => "00:00:00"@,
            },
            "-to"@,
            spec_format_timestamp(e as int),
        ],
        None => Seq::empty(),
    }
}

/// Every argument the decoding process is given, in order: the resolved
/// input URL, the clip window, and the fixed raw-PCM output format.
pub open spec fn spec_decoder_args(url: Seq<char>, start: Option<u64>, end: Option<u64>) -> Seq<
    Seq<char>,
> {
    seq!["-i"@, url] + spec_clip_opts(start, end) + seq![
        "-ac"@,
        "2"@,
        "-ar"@,
        "48000"@,
        "-f"@,
        "s16le"@,
        "-acodec"@,
        "pcm_s16le"@,
        "-"@,
    ]
}

/// Build the decoder's argument list for a resolved URL and clip window.
pub fn decoder_args(url: &str, start: Option<u64>, end: Option<u64>) -> (r: Vec<String>)
    ensures
        r@.map_values(|s: String| s@) == spec_decoder_args(url@, start, end),
{
    let mut v: Vec<String> = Vec::new();
    v.push("-i".to_owned());
    v.push(url.to_owned());
    if let Some(e) = end {
        v.push("-ss".to_owned());
        match start {
            Some(st) => v.push(format_timestamp(st)),
            None => v.push("00:00:00".to_owned()),
        }
        v.push("-to".to_owned());
        v.push(format_timestamp(e));
    }
    v.push("-ac".to_owned());
    v.push("2".to_owned());
    v.push("-ar".to_owned());
    v.push("48000".to_owned());
    v.push("-f".to_owned());
    v.push("s16le".to_owned());
    v.push("-acodec".to_owned());
    v.push("pcm_s16le".to_owned());
    v.push("-".to_owned());
    proof {
        assert(v@.map_values(|s: String| s@) =~= spec_decoder_args(url@, start, end));
    }
    v
}

/// Every argument the transcoding process is given: read pre-encoded audio
/// from standard input, write raw PCM to standard output.
pub open spec fn spec_transcoder_args() -> Seq<Seq<char>> {
    seq!["-format"@, "opus"@, "-i"@, "pipe:0"@, "-acodec"@, "pcm_s16le"@, "-f"@, "s16le"@, "-"@]
}

/// Build the transcoder's argument list.
pub fn transcoder_args() -> (r: Vec<String>)
    ensures
        r@.map_values(|s: String| s@) == spec_transcoder_args(),
{
    let mut v: Vec<String> = Vec::new();
    v.push("-format".to_owned());
    v.push("opus".to_owned());
    v.push("-i".to_owned());
    v.push("pipe:0".to_owned());
    v.push("-acodec".to_owned());
    v.push("pcm_s16le".to_owned());
    v.push("-f".to_owned());
    v.push("s16le".to_owned());
    v.push("-".to_owned());
    proof {
        assert(v@.map_values(|s: String| s@) =~= spec_transcoder_args());
    }
    v
}

/// Every argument the resolver is given: pick the best audio stream,
/// print its metadata as JSON, download nothing.
pub open spec fn spec_resolver_args(uri: Seq<char>) -> Seq<Seq<char>> {
    seq![
        "-f"@,
        "webm[abr>0]/bestaudio/best"@,
        "--no-playlist"@,
        "--print-json"@,
        "--skip-download"@,
        uri,
    ]
}

/// Build the resolver's argument list for a remote locator.
pub fn resolver_args(uri: &str) -> (r: Vec<String>)
    ensures
        r@.map_values(|s: String| s@) == spec_resolver_args(uri@),
{
    let mut v: Vec<String> = Vec::new();
    v.push("-f".to_owned());
    v.push("webm[abr>0]/bestaudio/best".to_owned());
    v.push("--no-playlist".to_owned());
    v.push("--print-json".to_owned());
    v.push("--skip-download".to_owned());
    v.push(uri.to_owned());
    proof {
        assert(v@.map_values(|s: String| s@) =~= spec_resolver_args(uri@));
    }
    v
}

} // verus!
