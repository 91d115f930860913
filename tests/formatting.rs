use twitch_lookup::format::{duration_to_hms, hex_to_rgb, is_hex_color, readable_number};

#[test]
fn grouping_inserts_separators_every_three_digits() {
    assert_eq!(readable_number(1000), "1,000");
    assert_eq!(readable_number(999), "999");
    assert_eq!(readable_number(1000000), "1,000,000");
}

#[test]
fn grouping_edge_values() {
    assert_eq!(readable_number(0), "0");
    assert_eq!(readable_number(12345), "12,345");
    assert_eq!(readable_number(100100), "100,100");
    assert_eq!(readable_number(u32::MAX), "4,294,967,295");
}

#[test]
fn duration_omits_zero_fields() {
    assert_eq!(duration_to_hms(90), "1m 30s");
    assert_eq!(duration_to_hms(3600), "1h");
    assert_eq!(duration_to_hms(86400), "1d");
    assert_eq!(duration_to_hms(86400 + 5), "1d 5s");
    assert_eq!(duration_to_hms(93784), "1d 2h 3m 4s");
}

#[test]
fn duration_of_nothing_is_empty() {
    assert_eq!(duration_to_hms(0), "");
    assert_eq!(duration_to_hms(-42), "");
}

#[test]
fn hex_colors_give_their_channels() {
    assert_eq!(hex_to_rgb("#FFFFFF"), (255, 255, 255));
    assert_eq!(hex_to_rgb("#000000"), (0, 0, 0));
    assert_eq!(hex_to_rgb("#FF8000"), (255, 128, 0));
    assert_eq!(hex_to_rgb("1e90ff"), (30, 144, 255));
}

#[test]
fn hex_color_text_is_recognised() {
    assert!(is_hex_color("#8A2BE2"));
    assert!(is_hex_color("abc"));
    assert!(!is_hex_color(""));
    assert!(!is_hex_color("#"));
    assert!(!is_hex_color("#12G456"));
}
