//! The decapi text API: request addresses and the reading of its plain-text answers.
use vstd::prelude::*;
use crate::text::{contains, text_contains};

verus! {

/// Address of the follow age of `user` toward `channel`.
pub fn follow_age_url(user: &str, channel: &str) -> (r: String)
    ensures
        r@ == "https://decapi.me/twitch/followage/"@ + channel@ + "/"@ + user@,
{
    let mut r = String::from_str("https://decapi.me/twitch/followage/");
    r.append(channel);
    r.append("/");
    r.append(user);
    r
}

/// Address of the stream title of `channel`.
pub fn title_url(channel: &str) -> (r: String)
    ensures
        r@ == "https://decapi.me/twitch/status/"@ + channel@,
{
    let mut r = String::from_str("https://decapi.me/twitch/status/");
    r.append(channel);
    r
}

/// Address of the viewer count of `channel`.
pub fn viewer_count_url(channel: &str) -> (r: String)
    ensures
        r@ == "https://decapi.me/twitch/viewercount/"@ + channel@,
{
    let mut r = String::from_str("https://decapi.me/twitch/viewercount/");
    r.append(channel);
    r
}

/// Reads a follow age answer: `None` when it says the user does not follow the
/// channel, else the follow age text itself.
pub fn follow_age(body: String) -> (r: Option<String>)
    ensures
        contains(body@, "does not follow"@) ==> r is None,
        !contains(body@, "does not follow"@) ==> (r matches Some(t) && t@ == body@),
{
    if text_contains(body.as_str(), "does not follow") {
        None
    } else {
        Some(body)
    }
}

/// Reads a viewer count answer: `None` when it says the channel is offline, else
/// the viewer count text itself.
pub fn is_live(body: String) -> (r: Option<String>)
    ensures
        contains(body@, "offline"@) ==> r is None,
        !contains(body@, "offline"@) ==> (r matches Some(t) && t@ == body@),
{
    if text_contains(body.as_str(), "offline") {
        None
    } else {
        Some(body)
    }
}

} // verus!
