use thulani_audio::config::{DiscordAuth, DiscordConfig};
use thulani_audio::iosplit::io_split;
use thulani_audio::playcmd::{PlayUrlDecision, _play};
use thulani_audio::queue::PlayQueue;
use thulani_audio::request::PlaySource;
use thulani_audio::util::users_listening;

#[test]
fn play_rejects_bad_links() {
    let mut q = PlayQueue::new();
    let empty = q.clone();

    assert_eq!(
        _play(&mut q, "ftp://example.com/a", "", "alice", 1),
        PlayUrlDecision::BadLink
    );
    // The prefix check is case-sensitive, as the original command was.
    assert_eq!(
        _play(&mut q, "HTTP://example.com/a", "", "alice", 1),
        PlayUrlDecision::BadLink
    );
    assert_eq!(
        _play(&mut q, "http://", "", "alice", 1),
        PlayUrlDecision::InvalidUrl
    );
    assert_eq!(
        _play(&mut q, "https://imgur.com/gallery/x", "", "alice", 1),
        PlayUrlDecision::Imgur
    );
    assert_eq!(
        _play(&mut q, "https://i.IMGUR.com/x.gifv", "", "alice", 1),
        PlayUrlDecision::Imgur
    );
    // Every rejection leaves the queue untouched.
    assert_eq!(q, empty);
}

#[test]
fn play_enqueues_the_normalized_locator() {
    let mut q = PlayQueue::new();
    let decision = _play(
        &mut q,
        "http://EXAMPLE.COM/Video?v=1",
        "please play this start 1m dur 30",
        "carol",
        42,
    );
    assert_eq!(decision, PlayUrlDecision::Accepted);

    let item = q.pop_next().unwrap();
    match &item.data {
        // The locator is the parsed URL written back out, not the raw
        // argument: the host is lowercased.
        PlaySource::Remote { locator } => assert_eq!(locator, "http://example.com/Video?v=1"),
        other => panic!("expected a remote source, got {:?}", other),
    }
    assert_eq!(item.initiator, "carol");
    assert_eq!(item.sender_channel, 42);
    assert_eq!(item.start, Some(60));
    assert_eq!(item.end, Some(90));
}

#[test]
fn listening_check_finds_the_channel() {
    assert!(!users_listening(&vec![], 5));
    assert!(!users_listening(&vec![None, Some(4)], 5));
    assert!(users_listening(&vec![None, Some(4), Some(5)], 5));
}

#[test]
fn discord_config_getters() {
    let c = DiscordConfig::new(
        DiscordAuth {
            client_id: 10,
            token: "SECRET-REDACTED".to_owned(),
        },
        111,
        222,
        333,
    );
    assert_eq!(c.guild(), 111);
    assert_eq!(c.owner(), 222);
    assert_eq!(c.voice_channel(), 333);
}

#[test]
fn split_halves_share_the_stream() {
    let (reader, writer) = io_split(vec![1u8, 2, 3]);

    let (mut v, handle) = writer.acquire();
    v.push(4);
    handle.release_write(v);

    let (v, handle) = reader.acquire();
    assert_eq!(v, vec![1, 2, 3, 4]);
    handle.release_write(v);
}
