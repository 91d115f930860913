use twitch_lookup::error::LookupError;
use twitch_lookup::helix::{
    bearer_value, followed_streams_url, subscription_from_answer, subscription_status,
    subscription_url, users_url,
    videos_url, Channel, FollowedStreams, HelixData, Pagination, Sub, User, UserData, Vod,
};
use twitch_lookup::report::Tone;

fn user(login: &str) -> User {
    User {
        broadcaster_type: "partner".to_string(),
        login: login.to_string(),
        display_name: login.to_uppercase(),
        uid: "141981764".to_string(),
        profile_image: "https://example.com/p.png".to_string(),
        user_type: "".to_string(),
        created_at: "2016-12-14T20:32:28Z".to_string(),
        view_count: 1234567,
    }
}

fn channel(name: &str) -> Channel {
    Channel {
        user_name: name.to_string(),
        user_login: name.to_lowercase(),
        game_name: "Chess".to_string(),
        live: true,
        title: "title".to_string(),
        viewer_count: 1200,
        started_at: 1000,
    }
}

fn page(names: &[&str], cursor: Option<&str>) -> HelixData<Channel> {
    HelixData {
        data: names.iter().map(|n| channel(n)).collect(),
        pagination: Pagination { cursor: cursor.map(|c| c.to_string()) },
    }
}

#[test]
fn empty_user_lookup_is_not_found() {
    let answer = UserData { data: vec![] };
    assert!(matches!(answer.into_user(), Err(LookupError::NotFound)));
}

#[test]
fn user_lookup_gives_the_first_record() {
    let answer = UserData { data: vec![user("first"), user("second")] };
    let u = answer.into_user().ok().unwrap();
    assert_eq!(u.login(), "first");
}

#[test]
fn followed_streams_pages_are_joined_in_request_order() {
    let (mut pager, first) = FollowedStreams::new("42");
    assert_eq!(first, "https://api.twitch.tv/helix/streams/followed?user_id=42");
    let next = pager.on_page(page(&["A", "B"], Some("abc")));
    assert_eq!(
        next,
        Some("https://api.twitch.tv/helix/streams/followed?user_id=42&after=abc".to_string())
    );
    let next = pager.on_page(page(&["C"], None));
    assert_eq!(next, None);
    let names: Vec<_> = pager.channels.iter().map(|c| c.user_name.clone()).collect();
    assert_eq!(names, vec!["A", "B", "C"]);
}

#[test]
fn page_items_and_cursor() {
    let p = HelixData { data: vec![1u32, 2, 3], pagination: Pagination { cursor: Some("x".to_string()) } };
    assert_eq!(p.items(), vec![1, 2, 3]);
    assert_eq!(p.pagination.cursor(), Some("x".to_string()));
    assert_eq!(Pagination { cursor: None }.cursor(), None);
}

#[test]
fn request_addresses() {
    assert_eq!(bearer_value("tok"), "Bearer tok");
    assert_eq!(users_url("bob"), "https://api.twitch.tv/helix/users?login=bob");
    assert_eq!(videos_url(77, None), "https://api.twitch.tv/helix/videos?user_id=77&first=1");
    assert_eq!(videos_url(77, Some(5)), "https://api.twitch.tv/helix/videos?user_id=77&first=5");
    assert_eq!(
        subscription_url("1", "2"),
        "https://api.twitch.tv/helix/subscriptions/user?broadcaster_id=1&user_id=2"
    );
    assert_eq!(
        followed_streams_url("9", Some("c")),
        "https://api.twitch.tv/helix/streams/followed?user_id=9&after=c"
    );
}

#[test]
fn user_getters() {
    let u = user("bob");
    assert_eq!(u.created_at(), "2016-12-14");
    assert_eq!(u.view_count(), "1,234,567");
    assert_eq!(u.uid(), "141981764");
    assert_eq!(u.display_name(), "BOB");
    assert_eq!(u.broadcaster_type(), "partner");
    assert_eq!(u.profile_image(), "https://example.com/p.png");
    assert_eq!(u.user_type(), "");
    let mut short = user("bob");
    short.created_at = "2016".to_string();
    assert_eq!(short.created_at(), "2016");
}

#[test]
fn user_report_heading() {
    assert_eq!(user("bob").headline(), "BOB's profile information");
}

#[test]
fn user_report_lines() {
    let lines = user("bob").lines();
    assert_eq!(lines.len(), 7);
    assert_eq!(lines[2].value, "1,234,567");
    assert_eq!(lines[6].value, "https://twitch.tv/bob");
    assert_eq!(lines[6].tone, Tone::Blue);
}

#[test]
fn vod_report_lines() {
    let v = Vod {
        title: "t".to_string(),
        url: "u".to_string(),
        view_count: 4321,
        vod_type: "archive".to_string(),
        duration: "1h2m3s".to_string(),
    };
    let lines = v.lines();
    assert_eq!(lines.len(), 5);
    assert_eq!(lines[2].label, "- View count:");
    assert_eq!(lines[2].value, "4,321");
}

#[test]
fn channel_headline_and_details() {
    let c = channel("Alpha");
    assert_eq!(c.headline(), "► Alpha is live playing Chess to 1200 viewers:");
    let lines = c.lines_at(1000 + 125);
    assert_eq!(lines.len(), 3);
    assert_eq!(lines[1].value, "2m 5s");
    assert_eq!(lines[2].value, "https://twitch.tv/alpha");
    let mut off = channel("Beta");
    off.live = false;
    assert_eq!(off.headline(), "■ Beta is offline.");
    assert!(off.lines_at(5000).is_empty());
}

#[test]
fn subscription_tiers_and_gifts() {
    let s = Sub { is_gift: true, tier: "2000".to_string(), gifter: Some("giver".to_string()) };
    assert!(s.is_gift());
    assert_eq!(s.tier(), 2);
    assert_eq!(s.gifter(), "giver");
    let own = Sub { is_gift: false, tier: "1000".to_string(), gifter: None };
    assert_eq!(own.gifter(), "No one");
    assert_eq!(
        subscription_status("me", "chan", Some(&s)),
        Ok("me is subscribed to chan with a tier 2 sub gifted by giver".to_string())
    );
    assert_eq!(
        subscription_status("me", "chan", Some(&own)),
        Ok("me is subscribed to chan with a tier 1 sub".to_string())
    );
    assert_eq!(
        subscription_status("me", "chan", None),
        Ok("me is not subscribed to chan".to_string())
    );
}

#[test]
fn non_numeric_tier_is_rejected() {
    let s = Sub { is_gift: false, tier: "prime".to_string(), gifter: None };
    assert_eq!(s.tier_level(), Err(LookupError::InvalidTier));
    assert_eq!(subscription_status("me", "chan", Some(&s)), Err(LookupError::InvalidTier));
    let t = Sub { is_gift: false, tier: "+3000".to_string(), gifter: None };
    assert_eq!(t.tier_level(), Ok(3));
}

#[test]
fn live_details_by_the_clock() {
    let lines = channel("Gamma").lines();
    assert_eq!(lines.len(), 3);
    assert!(!lines[1].value.is_empty());
}

#[test]
fn subscription_answer_reading() {
    let rec = |t: &str| Sub { is_gift: false, tier: t.to_string(), gifter: None };
    assert!(subscription_from_answer(404, vec![rec("1000")]).is_none());
    assert!(subscription_from_answer(200, vec![]).is_none());
    let s = subscription_from_answer(200, vec![rec("2000"), rec("3000")]).unwrap();
    assert_eq!(s.tier, "2000");
}
