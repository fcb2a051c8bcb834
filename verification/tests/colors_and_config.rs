use gale_led::color::Color;
use gale_led::config::{BehaviorConfig, Config, IcmpConfig};
use gale_led::effects::{heartbeat_level, rainbow_color};
use gale_led::error::Error;
use gale_led::mode::Mode;
use gale_led::validate::{validate_icmp_target, validate_interface_name};
use gale_led::validate_brightness;

fn config_message(result: Result<Config, Error>) -> String {
    match result {
        Err(Error::Config(message)) => message,
        other => panic!("expected a configuration error, got {other:?}"),
    }
}

#[test]
fn parses_hex_colors_case_insensitively() {
    assert_eq!(
        Color::from_hex("#A020f0").unwrap(),
        Color {
            red: 160,
            green: 32,
            blue: 240
        }
    );
}

#[test]
fn rejects_malformed_hex_colors() {
    for invalid in [
        "A020F0", "#A020F", "#A020F00", "#GG20F0", "#123 56", "#é1234",
    ] {
        assert!(Color::from_hex(invalid).is_err(), "{invalid} should fail");
    }
}

#[test]
fn rejects_rgb_values_above_255() {
    assert!(Color::from_components(256, 0, 0).is_err());
    assert!(Color::from_components(0, 999, 0).is_err());
}

#[test]
fn scales_rgb_with_rounding() {
    let color = Color {
        red: 255,
        green: 127,
        blue: 1,
    };
    assert_eq!(
        color.scaled(50).unwrap(),
        Color {
            red: 128,
            green: 64,
            blue: 1
        }
    );
    assert_eq!(
        color.scaled(0).unwrap(),
        Color {
            red: 0,
            green: 0,
            blue: 0
        }
    );
    assert!(color.scaled(101).is_err());
}

#[test]
fn validates_config_values() {
    assert_eq!(
        Config::from_values("1", "#A020F0", "75").unwrap(),
        Config {
            enabled: true,
            color: Color {
                red: 160,
                green: 32,
                blue: 240
            },
            brightness: 75,
            mode: Mode::Static,
            interface: "br-lan".into(),
            icmp: IcmpConfig {
                enabled: false,
                target: "1.1.1.1".into(),
                failure: BehaviorConfig {
                    mode: Mode::Static,
                    color: Color {
                        red: 255,
                        green: 0,
                        blue: 0,
                    },
                    brightness: 100,
                    interface: "br-lan".into(),
                },
                retries: 3,
                restore: 2,
            },
        }
    );
    assert!(Config::from_values("yes", "#A020F0", "75").is_err());
    assert!(Config::from_values("1", "#A020F0", "101").is_err());
    assert!(Config::from_values("1", "purple", "75").is_err());
    assert!(Config::from_extended_values("1", "#A020F0", "75", "unknown", "br-lan").is_err());
    assert!(
        Config::from_extended_values("1", "#A020F0", "75", "network_activity", "../wan").is_err()
    );
}

#[test]
fn existing_configuration_receives_icmp_defaults() {
    let config = Config::from_extended_values("1", "#A020F0", "75", "rainbow", "br-lan").unwrap();
    assert!(!config.icmp.enabled);
    assert_eq!(config.icmp.target, "1.1.1.1");
    assert_eq!(config.icmp.failure.mode, Mode::Static);
    assert_eq!(config.icmp.failure.color.to_hex(), "#FF0000");
    assert_eq!(config.icmp.retries, 3);
    assert_eq!(config.icmp.restore, 2);
}

#[test]
fn disabled_icmp_does_not_validate_hidden_settings() {
    let config = Config::from_all_values(
        "1",
        "#A020F0",
        "75",
        "static",
        "br-lan",
        "0",
        "not a valid target",
        "not_a_mode",
        "not-a-color",
        "not-a-number",
        "not an interface",
        "0",
        "0",
    )
    .unwrap();
    assert_eq!(config.icmp, IcmpConfig::default());
}

#[test]
fn computes_effect_frames() {
    assert_eq!(heartbeat_level(0), 0);
    assert_eq!(heartbeat_level(120), 100);
    assert_eq!(heartbeat_level(430), 70);
    assert_eq!(heartbeat_level(1000), 0);
    assert_eq!(
        rainbow_color(0, 100).unwrap(),
        Color {
            red: 255,
            green: 0,
            blue: 0
        }
    );
    assert_eq!(
        rainbow_color(1000, 50).unwrap(),
        Color {
            red: 128,
            green: 128,
            blue: 0
        }
    );
    assert!(rainbow_color(0, 101).is_err());
}

#[test]
fn validates_icmp_targets_and_probe_errors_are_failures() {
    for valid in ["1.1.1.1", "2606:4700:4700::1111", "one.one.one.one."] {
        validate_icmp_target(valid).unwrap();
    }
    for invalid in ["", "-option", "bad target", "bad..target"] {
        assert!(validate_icmp_target(invalid).is_err());
    }
}

#[test]
fn full_icmp_configuration_is_read() {
    let config = Config::from_all_values(
        "0", "#00ff00", "+010", "breathing", "eth0", "1", "example.com", "network_heartbeat",
        "#0000FF", "55", "wan", "4", "007",
    )
    .unwrap();
    assert!(!config.enabled);
    assert_eq!(config.brightness, 10);
    assert_eq!(config.mode, Mode::Breathing);
    assert_eq!(config.icmp.target, "example.com");
    assert_eq!(config.icmp.failure.mode, Mode::NetworkHeartbeat);
    assert_eq!(config.icmp.failure.color.to_hex(), "#0000FF");
    assert_eq!(config.icmp.failure.brightness, 55);
    assert_eq!(config.icmp.failure.interface, "wan");
    assert_eq!(config.icmp.retries, 4);
    assert_eq!(config.icmp.restore, 7);
}

#[test]
fn configuration_errors_name_the_first_rejected_value() {
    let all = |values: [&str; 13]| {
        Config::from_all_values(
            values[0], values[1], values[2], values[3], values[4], values[5], values[6],
            values[7], values[8], values[9], values[10], values[11], values[12],
        )
    };
    let good = [
        "1", "#A020F0", "75", "static", "br-lan", "1", "1.1.1.1", "static", "#FF0000", "100",
        "br-lan", "3", "2",
    ];
    assert!(all(good).is_ok());
    let cases: [(usize, &str, &str); 13] = [
        (0, "2", "enabled must be 0 or 1"),
        (1, "A020F0", "invalid input: color must use the exact #RRGGBB form"),
        (2, "256", "brightness must be an integer from 0 through 100"),
        (3, "blink", "mode must be static, rainbow, breathing, network_activity, or network_heartbeat; got blink"),
        (4, "a-very-long-interface", "interface must be 1-15 ASCII letters, digits, dots, underscores, colons, or hyphens"),
        (5, "yes", "icmp_enabled must be 0 or 1"),
        (6, "-option", "ICMP target must be an IPv4 address, IPv6 address, or DNS hostname"),
        (7, "pulse", "mode must be static, rainbow, breathing, network_activity, or network_heartbeat; got pulse"),
        (8, "#12345", "invalid input: color must contain exactly six hexadecimal digits"),
        (9, "101", "invalid input: brightness must be between 0 and 100"),
        (10, "", "interface must be 1-15 ASCII letters, digits, dots, underscores, colons, or hyphens"),
        (11, "0", "icmp_retries must be an integer of at least 1"),
        (12, "-2", "icmp_restore must be an integer of at least 1"),
    ];
    for (index, value, message) in cases {
        let mut values = good;
        values[index] = value;
        assert_eq!(config_message(all(values)), message, "value {index}");
    }
    assert_eq!(
        config_message(all(["x", "bad", "bad", "bad", "bad", "bad", "", "", "", "", "", "", ""])),
        "enabled must be 0 or 1"
    );
    assert_eq!(
        config_message(Config::from_values("1", "#A020F0", "9999")),
        "brightness must be an integer from 0 through 100"
    );
}

#[test]
fn hex_text_round_trips() {
    for (red, green, blue) in [(0, 0, 0), (255, 255, 255), (160, 32, 240), (1, 16, 171)] {
        let color = Color { red, green, blue };
        let text = color.to_hex();
        assert_eq!(Color::from_hex(&text).unwrap(), color);
    }
    assert_eq!(
        Color {
            red: 160,
            green: 32,
            blue: 240
        }
        .to_hex(),
        "#A020F0"
    );
    assert_eq!(Color::from_hex("#a020F0").unwrap().to_hex(), "#A020F0");
}

#[test]
fn hex_color_errors() {
    match Color::from_hex("red") {
        Err(Error::InvalidInput(message)) => {
            assert_eq!(message, "color must use the exact #RRGGBB form")
        }
        other => panic!("unexpected {other:?}"),
    }
    match Color::from_hex("#12345g") {
        Err(Error::InvalidInput(message)) => {
            assert_eq!(message, "color must contain exactly six hexadecimal digits")
        }
        other => panic!("unexpected {other:?}"),
    }
}

#[test]
fn components_and_brightness_limits() {
    assert_eq!(
        Color::from_components(255, 0, 7).unwrap(),
        Color {
            red: 255,
            green: 0,
            blue: 7
        }
    );
    match Color::from_components(0, 0, 256) {
        Err(Error::InvalidInput(message)) => {
            assert_eq!(message, "blue channel must be between 0 and 255")
        }
        other => panic!("unexpected {other:?}"),
    }
    assert!(validate_brightness(100).is_ok());
    assert!(validate_brightness(101).is_err());
    let color = Color {
        red: 10,
        green: 200,
        blue: 255,
    };
    assert_eq!(color.scaled(100).unwrap(), color);
}

#[test]
fn mode_names_round_trip() {
    for mode in [
        Mode::Static,
        Mode::Rainbow,
        Mode::Breathing,
        Mode::NetworkActivity,
        Mode::NetworkHeartbeat,
    ] {
        assert_eq!(Mode::parse(mode.as_str()).unwrap(), mode);
    }
    assert_eq!(Mode::NetworkActivity.as_str(), "network_activity");
    assert!(Mode::Rainbow.is_dynamic());
    assert!(!Mode::Static.is_dynamic());
    assert!(Mode::NetworkHeartbeat.uses_network());
    assert!(!Mode::Breathing.uses_network());
    assert!(Mode::parse("Static").is_err());
}

#[test]
fn interface_names_and_hostnames() {
    assert!(validate_interface_name("br-lan").is_ok());
    assert!(validate_interface_name("wlan0.1:2_x").is_ok());
    assert!(validate_interface_name("abcdefghijklmno").is_ok());
    assert!(validate_interface_name("abcdefghijklmnop").is_err());
    assert!(validate_interface_name("../wan").is_err());
    assert!(validate_interface_name("").is_err());
    assert!(validate_icmp_target("example.com").is_ok());
    assert!(validate_icmp_target("a-b.c").is_ok());
    assert!(validate_icmp_target("a-.c").is_err());
    assert!(validate_icmp_target(".").is_err());
    assert!(validate_icmp_target("example.com..").is_err());
    assert!(validate_icmp_target(&"a".repeat(64)).is_err());
    assert!(validate_icmp_target(&"a".repeat(63)).is_ok());
    let long = ["a".repeat(63), "b".repeat(63), "c".repeat(63), "d".repeat(61)].join(".");
    assert_eq!(long.len(), 253);
    assert!(validate_icmp_target(&long).is_ok());
    assert!(validate_icmp_target(&format!("{long}.")).is_err());
    let shorter = ["a".repeat(63), "b".repeat(63), "c".repeat(63), "d".repeat(60)].join(".");
    assert!(validate_icmp_target(&format!("{shorter}.")).is_ok());
    assert!(validate_icmp_target(&format!("{long}e")).is_err());
    assert!(validate_icmp_target("::1").is_ok());
    assert!(validate_icmp_target("1.2.3.4.5").is_ok());
    assert!(validate_icmp_target("fe80::1::2").is_err());
}

#[test]
fn effect_levels_and_rainbow_segments() {
    assert_eq!(heartbeat_level(60), 50);
    assert_eq!(heartbeat_level(2120), 100);
    assert_eq!(heartbeat_level(240), 0);
    assert_eq!(heartbeat_level(319), 0);
    assert_eq!(heartbeat_level(540), 0);
    assert_eq!(
        rainbow_color(2000, 100).unwrap(),
        Color {
            red: 0,
            green: 255,
            blue: 0
        }
    );
    assert_eq!(
        rainbow_color(5000, 100).unwrap(),
        Color {
            red: 255,
            green: 0,
            blue: 255
        }
    );
    assert_eq!(rainbow_color(6000, 100).unwrap(), rainbow_color(0, 100).unwrap());
}

#[test]
fn brighter_never_dimmer() {
    let color = Color {
        red: 201,
        green: 37,
        blue: 3,
    };
    let mut previous = color.scaled(0).unwrap();
    for percent in 1..=100 {
        let next = color.scaled(percent).unwrap();
        assert!(next.red >= previous.red && next.green >= previous.green);
        assert!(next.blue >= previous.blue);
        assert!(next.red <= color.red && next.green <= color.green && next.blue <= color.blue);
        previous = next;
    }
    assert_eq!(previous, color);
}
