use twitch_lookup::error::LookupError;
use twitch_lookup::leppunen::{
    yes_no, Api, Badge, ChatSettings, DisplayMode, LastBroadcast, Roles, Tint, User,
};
use twitch_lookup::report::{Line, Tone};

fn sample_user() -> User {
    User {
        uid: 12345,
        banned: false,
        display_name: "Streamer".to_string(),
        bio: Some("hello".to_string()),
        follows: 1500,
        followers: 2500000,
        channel_views: 999,
        chat_color: "#FF8000".to_string(),
        logo: "https://example.com/logo.png".to_string(),
        verified_bot: true,
        created_at: 1577836800,
        emote_prefix: "strm".to_string(),
        roles: Roles { is_affiliate: true, is_partner: false, is_staff: None },
        badges: vec![Badge { title: "Verified".to_string() }],
        chat_settings: ChatSettings {
            chat_delay: 0,
            followers_only_duration: 600,
            slow_mode_duration: 30,
            emote_only: false,
            sub_only: true,
            unique_chat: false,
            require_verified_account: false,
            chat_rules: vec!["be nice".to_string()],
        },
        last_broadcast: LastBroadcast { started_at: 1577836800, title: None },
    }
}

fn view(l: &Line) -> (u8, String, String, Tone) {
    (l.indent, l.label.clone(), l.value.clone(), l.tone)
}

#[test]
fn short_and_long_logins_are_rejected_before_any_request() {
    assert_eq!(Api::user("ab"), Err(LookupError::InvalidUsername));
    assert_eq!(Api::user(&"a".repeat(26)), Err(LookupError::InvalidUsername));
}

#[test]
fn logins_within_bounds_give_the_profile_address() {
    assert_eq!(Api::user("abc"), Ok("https://api.ivr.fi/v2/twitch/user/abc".to_string()));
    let long = "a".repeat(25);
    assert_eq!(Api::user(&long), Ok(format!("https://api.ivr.fi/v2/twitch/user/{long}")));
}

#[test]
fn log_addresses_and_status() {
    assert_eq!(Api::logs_list_url("bob", "chan"), "https://logs.ivr.fi/list?channel=chan&user=bob");
    assert_eq!(Api::logs_page_url("bob", "chan"), "https://logs.ivr.fi/?channel=chan&username=bob");
    assert!(Api::is_valid_logs_query(200));
    assert!(Api::is_valid_logs_query(500));
    assert!(!Api::is_valid_logs_query(404));
}

#[test]
fn active_roles_in_order() {
    let r = Roles { is_affiliate: true, is_partner: true, is_staff: Some(true) };
    assert_eq!(r.get_active(), vec!["Affiliate", "Partner", "Staff"]);
    let r = Roles { is_affiliate: false, is_partner: true, is_staff: None };
    assert_eq!(r.get_active(), vec!["Partner"]);
    let r = Roles { is_affiliate: false, is_partner: false, is_staff: Some(false) };
    assert!(r.get_active().is_empty());
}

#[test]
fn badge_tints() {
    let b = |t: &str| Badge { title: t.to_string() }.color();
    assert_eq!(b("Verified"), Tint::Rgb(196, 77, 255));
    assert_eq!(b("Prime Gaming"), Tint::Rgb(38, 139, 255));
    assert_eq!(b("GlitchCon 2020"), Tint::Rgb(242, 179, 255));
    assert_eq!(b("TwitchCon 2020 - Amsterdam"), Tint::Rgb(170, 0, 204));
    assert_eq!(b("GLHF Pledge"), Tint::White);
    assert_eq!(b("Something else"), Tint::White);
}

#[test]
fn flags_read_yes_or_no() {
    assert_eq!(yes_no(true), "yes");
    assert_eq!(yes_no(false), "no");
}

#[test]
fn user_counts_are_grouped() {
    let u = sample_user();
    assert_eq!(u.uid(), 12345);
    assert_eq!(u.following(), "1,500");
    assert_eq!(u.followers(), "2,500,000");
    assert_eq!(u.channel_views(), "999");
    assert_eq!(u.chat_rgb(), Some((255, 128, 0)));
    assert_eq!(u.name_tone(), Tone::Rgb(255, 128, 0));
}

#[test]
fn user_without_hex_color_has_plain_name() {
    let mut u = sample_user();
    u.chat_color = String::new();
    assert_eq!(u.chat_rgb(), None);
    assert_eq!(u.name_tone(), Tone::Plain);
}

#[test]
fn creation_date_in_utc() {
    let u = sample_user();
    assert_eq!(u.created_date(), Ok("2020-01-01".to_string()));
    let mut far = sample_user();
    far.created_at = i64::MAX;
    assert_eq!(far.created_date(), Err(LookupError::InvalidTimestamp));
}

#[test]
fn time_since_broadcast() {
    let lb = LastBroadcast { started_at: 1000, title: None };
    assert_eq!(lb.time_since_at(1000 + 3600 + 61), "1h 1m 1s");
    assert_eq!(lb.time_since_at(500), "");
    let recent = LastBroadcast { started_at: 0, title: None };
    assert!(!recent.time_since().is_empty());
}

#[test]
fn compact_profile_lines() {
    let u = sample_user();
    let lines: Vec<_> = u.compact_lines(1577836800 + 90).iter().map(view).collect();
    let s = |x: &str| x.to_string();
    assert_eq!(
        lines,
        vec![
            (0, s("- User ID:"), s("12345"), Tone::Magenta),
            (0, s("- Banned:"), s("no"), Tone::Red),
            (0, s("- Display name:"), s("Streamer"), Tone::Rgb(255, 128, 0)),
            (0, s("- Follows:"), s("1,500"), Tone::Magenta),
            (0, s("- Followers:"), s("2,500,000"), Tone::Magenta),
            (0, s("- Channel views:"), s("999"), Tone::Magenta),
            (0, s("- Chat color:"), s("#FF8000"), Tone::Rgb(255, 128, 0)),
            (0, s("- Profile image:"), s("https://example.com/logo.png"), Tone::Blue),
            (0, s("- Account created:"), s("2020-01-01"), Tone::Green),
            (0, s("- Downtime:"), s("1m 30s"), Tone::Green),
        ]
    );
}

#[test]
fn verbose_profile_lines() {
    let u = sample_user();
    let lines: Vec<_> = u.verbose_lines(1577836800 + 3600).iter().map(view).collect();
    let s = |x: &str| x.to_string();
    assert_eq!(lines.len(), 28);
    assert_eq!(lines[2], (0, s("- Bio:"), s("hello"), Tone::Plain));
    assert_eq!(lines[8], (0, s("- Verified bot:"), s("yes"), Tone::Green));
    assert_eq!(lines[12], (1, s("- Affiliate:"), s("yes"), Tone::Green));
    assert_eq!(lines[14], (1, s("- Staff:"), s("no"), Tone::Red));
    assert_eq!(lines[16], (1, s("-"), s("Verified"), Tone::Rgb(196, 77, 255)));
    assert_eq!(lines[18], (1, s("- Chat delay:"), s(""), Tone::Green));
    assert_eq!(lines[19], (1, s("- Followers only duration:"), s("10m"), Tone::Green));
    assert_eq!(lines[20], (1, s("- Slow mode duration:"), s("30s"), Tone::Green));
    assert_eq!(lines[22], (1, s("- Sub only:"), s("yes"), Tone::Green));
    assert_eq!(lines[26], (2, s("-"), s("be nice"), Tone::Yellow));
    assert_eq!(lines[27], (0, s("- Downtime:"), s("1h"), Tone::Plain));
}

#[test]
fn display_mode_selects_the_report() {
    let u = sample_user();
    assert_eq!(u.profile_lines(DisplayMode::Compact, 0).len(), 10);
    assert_eq!(u.profile_lines(DisplayMode::Verbose, 0).len(), 28);
}

#[test]
fn profile_by_the_clock() {
    let u = sample_user();
    let lines = u.profile(DisplayMode::Compact);
    assert_eq!(lines.len(), 10);
    assert_eq!(lines[9].label, "- Downtime:");
    assert!(!lines[9].value.is_empty());
}
