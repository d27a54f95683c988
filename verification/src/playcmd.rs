//! Deciding what to do with a `play <url>` request.
//!
//! A locator must look like an HTTP URL, must actually parse, and must not
//! point at a rejected image host; what survives is enqueued onto the
//! general queue in its normalized form, together with the clip window
//! parsed out of the message text.

use vstd::prelude::*;
use vstd::string::StringSliceAdditionalSpecFns;

use crate::queue::PlayQueue;
use crate::request::{PlayArgs, PlaySource};
use crate::timeutil::{parse_times, spec_parse_times};

verus! {

/// What a parsed locator is reduced to: its normalized serialization and,
/// when its host is a DNS domain, that domain.
pub ghost struct UrlParts {
    pub text: Seq<char>,
    pub domain: Option<Seq<char>>,
}

/// How a locator parses, a function of the locator alone: nothing when it
/// is not a valid URL, otherwise its normalized text and host domain.
pub uninterp spec fn url_parts(s: Seq<char>) -> Option<UrlParts>;

/// The view of an optional string.
pub open spec fn opt_str_view(o: Option<String>) -> Option<Seq<char>> {
    match o {
        Some(s) => Some(s@),
        None => None,
    }
}

/// A parsed locator reduced to the plain values the decision reads.
struct ParsedUrl {
    text: String,
    domain: Option<String>,
}

/// Relies on `url::Url::parse`, `Url::host` and `From<Url> for String`:
/// whether a locator parses, its normalized serialization and its host
/// domain are functions of the locator alone.
#[verifier::external_body]
fn parse_play_url(s: &str) -> (r: Option<ParsedUrl>)
    ensures
        r is Some <==> url_parts(s@) is Some,
        r matches Some(p) ==> url_parts(s@) == Some(
            UrlParts { text: p.text@, domain: opt_str_view(p.domain) },
        ),
{
    match url::Url::parse(s) {
        Ok(u) => {
            let domain = match u.host() {
                Some(url::Host::Domain(d)) => Some(d.to_owned()),
                _ => None,
            };
            Some(ParsedUrl { domain, text: String::from(u) })
        },
        Err(_) => None,
    }
}

/// Whether the locator begins with `http`.
pub open spec fn spec_starts_with_http(b: Seq<u8>) -> bool {
    &&& b.len() >= 4
    &&& b[0] == 104
    &&& b[1] == 116
    &&& b[2] == 116
    &&& b[3] == 112
}

fn starts_with_http(s: &str) -> (r: bool)
    ensures
        r == spec_starts_with_http(s.spec_bytes()),
{
    let b = s.as_bytes();
    b.len() >= 4 && b[0] == 104 && b[1] == 116 && b[2] == 116 && b[3] == 112
}

/// An ASCII letter folded to lower case.
pub open spec fn lower_char(c: char) -> char {
    if 'A' <= c && c <= 'Z' {
        ((c as u8) + 32) as char
    } else {
        c
    }
}

pub open spec fn imgur_at(d: Seq<char>, i: int) -> bool {
    &&& i + 5 <= d.len()
    &&& lower_char(d[i]) == 'i'
    &&& lower_char(d[i + 1]) == 'm'
    &&& lower_char(d[i + 2]) == 'g'
    &&& lower_char(d[i + 3]) == 'u'
    &&& lower_char(d[i + 4]) == 'r'
}

/// Whether the host mentions the rejected image host, matching it without
/// regard to letter case.
pub open spec fn spec_mentions_imgur(d: Seq<char>) -> bool {
    exists|i: int| 0 <= i && imgur_at(d, i)
}

fn lower_char_exec(c: char) -> (r: char)
    ensures
        r == lower_char(c),
{
    if 'A' <= c && c <= 'Z' {
        (((c as u8) + 32) as char)
    } else {
        c
    }
}

fn mentions_imgur(d: &str) -> (r: bool)
    ensures
        r == spec_mentions_imgur(d@),
{
    let n = d.unicode_len();
    let mut i: usize = 0;
    loop
        invariant
            n == d@.len(),
            i <= n,
            forall|j: int| 0 <= j < i ==> !imgur_at(d@, j),
        decreases n - i,
    {
        if n - i < 5 {
            assert(forall|j: int| 0 <= j && imgur_at(d@, j) ==> j < i);
            return false;
        }
        if lower_char_exec(d.get_char(i)) == 'i' && lower_char_exec(d.get_char(i + 1)) == 'm'
            && lower_char_exec(d.get_char(i + 2)) == 'g' && lower_char_exec(d.get_char(i + 3))
            == 'u' && lower_char_exec(d.get_char(i + 4)) == 'r' {
            assert(imgur_at(d@, i as int));
            return true;
        }
        i = i + 1;
    }
}

/// How a `play` request was settled.
#[derive(Clone, Copy, Debug, PartialEq, Eq, Structural)]
pub enum PlayUrlDecision {
    /// The locator does not even begin with `http`.
    BadLink,
    /// The locator is not a valid URL.
    InvalidUrl,
    /// The locator points at the rejected image host.
    Imgur,
    /// The request was enqueued onto the general queue.
    Accepted,
}

/// Settle a `play` request: validate the locator and, when it passes,
/// enqueue it in normalized form with the clip window parsed from the
/// message text. On any rejection the queue is untouched and the caller
/// reports the decision's message to the user.
pub fn _play(
    queue: &mut PlayQueue,
    url: &str,
    msg_content: &str,
    initiator: &str,
    sender_channel: u64,
) -> (r: PlayUrlDecision)
    ensures
        r is BadLink <==> !spec_starts_with_http(url.spec_bytes()),
        spec_starts_with_http(url.spec_bytes()) ==> (r is InvalidUrl <==> url_parts(url@) is None),
        r is Imgur ==> (url_parts(url@) matches Some(p) && p.domain matches Some(d)
            && spec_mentions_imgur(d)),
        !(r is Accepted) ==> final(queue)@ == old(queue)@,
        r is Accepted ==> {
            &&& url_parts(url@) matches Some(p) && match p.domain {
                Some(d) => !spec_mentions_imgur(d),
                None => true,
            }
            &&& final(queue)@.meme == old(queue)@.meme
            &&& final(queue)@.current == old(queue)@.current
            &&& final(queue)@.volume == old(queue)@.volume
            &&& final(queue)@.general.len() == old(queue)@.general.len() + 1
            &&& final(queue)@.general.take(old(queue)@.general.len() as int) == old(queue)@.general
            &&& {
                let a = final(queue)@.general.last();
                &&& a.data matches PlaySource::Remote { locator } && locator@ == url_parts(
                    url@,
                ).unwrap().text
                &&& a.initiator@ == initiator@
                &&& a.sender_channel == sender_channel
                &&& a.start == spec_parse_times(msg_content.spec_bytes()).0
                &&& a.end == spec_parse_times(msg_content.spec_bytes()).1
            }
        },
{
    if !starts_with_http(url) {
        return PlayUrlDecision::BadLink;
    }
    let parsed = match parse_play_url(url) {
        None => {
            return PlayUrlDecision::InvalidUrl;
        },
        Some(p) => p,
    };
    let is_imgur = match &parsed.domain {
        Some(d) => mentions_imgur(d.as_str()),
        None => false,
    };
    if is_imgur {
        return PlayUrlDecision::Imgur;
    }
    let times = parse_times(msg_content);
    queue.enqueue(
        PlayArgs {
            data: PlaySource::Remote { locator: parsed.text },
            initiator: initiator.to_owned(),
            sender_channel,
            start: times.0,
            end: times.1,
        },
        false,
    );
    PlayUrlDecision::Accepted
}

} // verus!
