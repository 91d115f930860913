use twitch_lookup::tmi::{Chat, Chatters};

fn names(v: &[&str]) -> Vec<String> {
    v.iter().map(|s| s.to_string()).collect()
}

fn room() -> Chatters {
    Chatters {
        broadcaster: names(&["streamer"]),
        moderators: names(&["mod_a", "mod_b"]),
        vips: names(&["vip_a"]),
        viewers: names(&["viewer_a", "viewer_b"]),
    }
}

#[test]
fn present_in_any_role() {
    let c = room();
    assert!(c.is_present("mod_b".to_string()));
    assert!(c.is_present("vip_a".to_string()));
    assert!(c.is_present("viewer_b".to_string()));
    assert!(c.is_present("streamer".to_string()));
}

#[test]
fn absent_when_in_no_role() {
    let c = room();
    assert!(!c.is_present("nobody".to_string()));
    let empty = Chatters { broadcaster: vec![], moderators: vec![], vips: vec![], viewers: vec![] };
    assert!(!empty.is_present("streamer".to_string()));
}

#[test]
fn broadcaster_name_or_empty() {
    assert_eq!(room().broadcaster(), "streamer");
    let empty = Chatters { broadcaster: vec![], moderators: vec![], vips: vec![], viewers: vec![] };
    assert_eq!(empty.broadcaster(), "");
}

#[test]
fn chat_accessors() {
    let chat = Chat { chatter_count: 6, chatters: room() };
    assert_eq!(chat.chatter_count(), 6);
    assert_eq!(chat.chatters().moderators(), &names(&["mod_a", "mod_b"]));
    assert_eq!(chat.chatters().vips(), &names(&["vip_a"]));
    assert_eq!(chat.chatters().viewers(), &names(&["viewer_a", "viewer_b"]));
}

#[test]
fn roster_address() {
    assert_eq!(
        twitch_lookup::tmi::chatters_url("chan"),
        "https://tmi.twitch.tv/group/user/chan/chatters"
    );
}
