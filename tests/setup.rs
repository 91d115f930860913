use twitch_lookup::cli::{channel_link, command_url, subject_and_target};
use twitch_lookup::config::Config;
use twitch_lookup::decapi::{follow_age, follow_age_url, is_live, title_url, viewer_count_url};
use twitch_lookup::deser::{
    deserialize_date_time, deserialize_millis, deserialize_minutes, deserialize_seconds,
    deserialize_stream_status, deserialize_uid,
};
use twitch_lookup::error::LookupError;

#[test]
fn credentials_with_four_fields() {
    let c = Config::from_credentials("me;123;cid;tok").ok().unwrap();
    assert_eq!(c.login, "me");
    assert_eq!(c.user_id, "123");
    assert_eq!(c.client_id, "cid");
    assert_eq!(c.access_token, "tok");
    assert!(!c.is_unset());
}

#[test]
fn credentials_with_other_field_counts_are_malformed() {
    assert!(matches!(Config::from_credentials("me;123;cid"), Err(LookupError::MalformedCredentials)));
    assert!(matches!(Config::from_credentials("a;b;c;d;e"), Err(LookupError::MalformedCredentials)));
    assert!(matches!(Config::from_credentials(""), Err(LookupError::MalformedCredentials)));
}

#[test]
fn empty_config_is_unset() {
    let c = Config {
        login: String::new(),
        user_id: String::new(),
        client_id: String::new(),
        access_token: String::new(),
    };
    assert!(c.is_unset());
}

#[test]
fn decapi_addresses() {
    assert_eq!(follow_age_url("u", "c"), "https://decapi.me/twitch/followage/c/u");
    assert_eq!(title_url("c"), "https://decapi.me/twitch/status/c");
    assert_eq!(viewer_count_url("c"), "https://decapi.me/twitch/viewercount/c");
}

#[test]
fn decapi_answers_are_read_by_their_text() {
    assert_eq!(is_live("c is offline".to_string()), None);
    assert_eq!(is_live("1234".to_string()), Some("1234".to_string()));
    assert_eq!(follow_age("u does not follow c".to_string()), None);
    assert_eq!(follow_age("2 years".to_string()), Some("2 years".to_string()));
}

#[test]
fn two_name_commands_default_to_the_operator() {
    assert_eq!(
        subject_and_target("bob".to_string(), Some("chan".to_string()), "me"),
        ("bob".to_string(), "chan".to_string())
    );
    assert_eq!(
        subject_and_target("chan".to_string(), None, "me"),
        ("me".to_string(), "chan".to_string())
    );
}

#[test]
fn bot_command_pages() {
    assert_eq!(
        command_url("supi", "ping"),
        Some("https://supinic.com/bot/command/detail/ping".to_string())
    );
    assert_eq!(
        command_url("supibot", "ping"),
        Some("https://supinic.com/bot/command/detail/ping".to_string())
    );
    assert_eq!(command_url("other", "ping"), None);
    assert_eq!(channel_link("bob"), "https://twitch.tv/bob");
}

#[test]
fn raw_field_conversions() {
    assert_eq!(deserialize_millis(Some(2500)), 2);
    assert_eq!(deserialize_millis(Some(-2500)), -2);
    assert_eq!(deserialize_millis(Some(i64::MIN)), i64::MIN / 1000);
    assert_eq!(deserialize_millis(None), 0);
    assert_eq!(deserialize_seconds(Some(30)), 30);
    assert_eq!(deserialize_seconds(None), 0);
    assert_eq!(deserialize_minutes(Some(10)), 600);
    assert_eq!(deserialize_minutes(None), 0);
    assert!(deserialize_stream_status(Some("live")));
    assert!(!deserialize_stream_status(Some("")));
    assert!(!deserialize_stream_status(None));
    assert_eq!(deserialize_uid("0042"), 42);
    assert_eq!(deserialize_uid("abc"), 0);
    assert_eq!(deserialize_uid("4294967296"), 0);
}

#[test]
fn timestamps_are_read_as_seconds() {
    assert_eq!(deserialize_date_time("2020-01-01T00:00:00Z"), Ok(1577836800));
    assert_eq!(deserialize_date_time("2020-01-01T02:00:00+02:00"), Ok(1577836800));
    assert_eq!(deserialize_date_time("yesterday"), Err(LookupError::InvalidTimestamp));
}
