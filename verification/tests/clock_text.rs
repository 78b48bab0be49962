use master_time::clock_strings::{Language, Strings};
use master_time::clock_text::{
    fill_template, kod_description, leap_text, mask, mode_text, parse_extensions,
    parse_transmit_timestamp, stratum_text, GlobalCategory, TransmitTimestamp,
};

#[test]
fn labels_come_from_the_selected_language() {
    let english = Strings::for_language(Language::English);
    assert_eq!(english.title, "NTP Clock");
    assert_eq!(Strings::for_language(Language::ChineseSimplified).title, "NTP 时钟");
    assert_eq!(Strings::for_language(Language::ChineseTraditional).title, "NTP 時鐘");
    assert_eq!(Strings::english().leap_none, "No warning");
}

#[test]
fn templates_are_filled_in_order() {
    assert_eq!(fill_template("Active: {} ({})", &["NZ", "pool"]), "Active: NZ (pool)");
    assert_eq!(
        fill_template("Jitter          : {:.3} ms (ping std dev)", &["1.500"]),
        "Jitter          : 1.500 ms (ping std dev)"
    );
    assert_eq!(fill_template("no placeholder", &["x"]), "no placeholder");
    assert_eq!(fill_template("{} and {}", &["a"]), "a and {}");
    assert_eq!(fill_template("{}", &["{}", "b"]), "{}");
    assert_eq!(fill_template("{} {}", &["{}", "x"]), "{} x");
    assert_eq!(fill_template("{:.3} ms", &["1.5"]), "1.5 ms");
}

#[test]
fn header_fields_are_described() {
    let s = Strings::english();
    assert_eq!(leap_text(&s, 0), "No warning");
    assert_eq!(leap_text(&s, 3), s.leap_alarm);
    assert_eq!(stratum_text(&s, 3), "Secondary reference (stratum 3)");
    assert_eq!(stratum_text(&s, 0), s.stratum_unspec);
    assert_eq!(stratum_text(&s, 16), s.stratum_unsync);
    assert_eq!(kod_description("RATE"), "Rate limit exceeded, back off");
    assert_eq!(kod_description("TIME"), "Time changed");
    assert_eq!(kod_description("rate"), "Unknown KoD code");
    assert_eq!(mode_text(4), "Server");
    assert_eq!(mode_text(0), "Reserved");
    assert_eq!(mask("secret"), "******");
    assert_eq!(mask("日本"), "**");
    assert_eq!(GlobalCategory::Pool.label(), "NTP Pools");
}

#[test]
fn transmit_timestamps_convert_to_unix_time() {
    let mut packet = [0u8; 48];
    packet[40..44].copy_from_slice(&(2_208_988_800u32 + 5).to_be_bytes());
    packet[44..48].copy_from_slice(&0x8000_0000u32.to_be_bytes());
    let timestamp = parse_transmit_timestamp(&packet);
    assert_eq!(timestamp.to_unix_seconds(), 5);
    assert_eq!(timestamp.millis(), 500);
    let early = TransmitTimestamp {
        seconds: 10,
        fraction: u32::MAX,
    };
    assert_eq!(early.to_unix_seconds(), 0);
    assert_eq!(early.millis(), 999);
}

#[test]
fn extension_fields_are_summarised() {
    assert_eq!(parse_extensions(&[0u8; 48]), "none");
    let mut packet = vec![0u8; 48];
    packet.extend_from_slice(&[0x01, 0x04, 0x00, 0x02, 0, 0, 0, 0]);
    packet.extend_from_slice(&[0x02, 0x06, 0x00, 0x01]);
    assert_eq!(
        parse_extensions(&packet),
        "2 ext field(s): NTS (8 B), NTS Authenticator (4 B)"
    );
    let mut mac = vec![0u8; 48];
    mac.extend_from_slice(&[0u8; 20]);
    assert_eq!(parse_extensions(&mac), "MAC present (20 B)");
    let mut runaway = vec![0u8; 48];
    runaway.extend_from_slice(&[0x00, 0x00, 0x00, 0x09, 1, 2]);
    assert_eq!(parse_extensions(&runaway), "MAC present (6 B)");
}
