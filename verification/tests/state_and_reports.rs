use gale_led::cli::{parse_brightness_option, parse_component, require_arg_count};
use gale_led::color::Color;
use gale_led::config::{BehaviorConfig, Config, IcmpConfig};
use gale_led::error::Error;
use gale_led::hardware::{
    channel_definitions, missing_path_error, parse_sysfs_u32, parse_sysfs_u64, Channel, Hardware,
};
use gale_led::icmp::IcmpState;
use gale_led::mode::Mode;
use gale_led::network::{
    interfaces_json_from, missing_interface_error, network_interface_path, ping_arguments,
};
use gale_led::runtime::{BehaviorRuntime, NetworkSample, SampleNeed, Supervisor};

fn icmp_test_config(enabled: bool, retries: u32, restore: u32) -> IcmpConfig {
    IcmpConfig {
        enabled,
        target: "1.1.1.1".into(),
        failure: BehaviorConfig {
            mode: Mode::Static,
            color: Color {
                red: 255,
                green: 0,
                blue: 0,
            },
            brightness: 100,
            interface: "br-lan".into(),
        },
        retries,
        restore,
    }
}

fn fixture_hardware(max: u32) -> Hardware {
    let channels = channel_definitions()
        .iter()
        .map(|&(name, directory)| {
            Channel::new(name, format!("/fixture/{directory}"), max).unwrap()
        })
        .collect();
    Hardware::from_channels(channels).unwrap()
}

#[test]
fn disabled_icmp_ignores_results_and_preserves_static_apply() {
    let mut state = IcmpState::new(&icmp_test_config(false, 1, 1));
    assert_eq!(state.observe(false), None);
    assert!(!state.is_failed());

    let hardware = fixture_hardware(255);
    let config = Config::from_values("1", "#A020F0", "75").unwrap();
    assert!(!config.runs_continuously());
    let (color, brightness) = config.applied_color();
    assert_eq!(
        hardware.channel_values(color, brightness).unwrap(),
        [120, 24, 180]
    );
}

#[test]
fn successful_icmp_keeps_normal_state() {
    let mut state = IcmpState::new(&icmp_test_config(true, 3, 2));
    assert_eq!(state.observe(true), None);
    assert!(!state.is_failed());
}

#[test]
fn icmp_failure_activates_only_at_retry_threshold() {
    let mut state = IcmpState::new(&icmp_test_config(true, 3, 2));
    assert_eq!(state.observe(false), None);
    assert_eq!(state.observe(false), None);
    assert!(!state.is_failed());
    assert_eq!(state.observe(false), Some(true));
    assert!(state.is_failed());
}

#[test]
fn icmp_recovery_activates_only_at_restore_threshold() {
    let mut state = IcmpState::new(&icmp_test_config(true, 1, 2));
    assert_eq!(state.observe(false), Some(true));
    assert_eq!(state.observe(true), None);
    assert!(state.is_failed());
    assert_eq!(state.observe(true), Some(false));
    assert!(!state.is_failed());
}

#[test]
fn icmp_counters_reset_when_result_direction_changes() {
    let mut state = IcmpState::new(&icmp_test_config(true, 3, 2));
    assert_eq!(state.observe(false), None);
    assert_eq!(state.observe(false), None);
    assert_eq!(state.observe(true), None);
    assert_eq!(state.observe(false), None);
    assert_eq!(state.observe(false), None);
    assert!(!state.is_failed());
    assert_eq!(state.observe(false), Some(true));

    assert_eq!(state.observe(true), None);
    assert_eq!(state.observe(false), None);
    assert_eq!(state.observe(true), None);
    assert!(state.is_failed());
    assert_eq!(state.observe(true), Some(false));
}

#[test]
fn zero_thresholds_still_need_one_probe() {
    let mut state = IcmpState::new(&icmp_test_config(true, 0, 0));
    assert_eq!(state.observe(true), None);
    assert!(!state.is_failed());
    assert_eq!(state.observe(false), Some(true));
    assert_eq!(state.observe(false), None);
    assert_eq!(state.observe(true), Some(false));
}

#[test]
fn lists_safe_network_interfaces() {
    let found = vec![
        ("br-lan".to_string(), "up".to_string()),
        ("bad interface".to_string(), "unknown".to_string()),
    ];
    assert_eq!(
        interfaces_json_from(&found),
        "{\"interfaces\":[{\"name\":\"br-lan\",\"state\":\"up\"}]}"
    );
}

#[test]
fn interfaces_are_sorted_and_states_sanitized() {
    let found = vec![
        ("wan".to_string(), "down".to_string()),
        ("eth0".to_string(), "up!".to_string()),
        ("br-lan".to_string(), "".to_string()),
        ("eth".to_string(), "up".to_string()),
        ("../x".to_string(), "up".to_string()),
    ];
    assert_eq!(
        interfaces_json_from(&found),
        "{\"interfaces\":[{\"name\":\"br-lan\",\"state\":\"\"},{\"name\":\"eth\",\"state\":\"up\"},{\"name\":\"eth0\",\"state\":\"unknown\"},{\"name\":\"wan\",\"state\":\"down\"}]}"
    );
    assert_eq!(interfaces_json_from(&Vec::new()), "{\"interfaces\":[]}");
}

#[test]
fn reports_missing_hardware_without_writes() {
    let error = missing_path_error("/fixture/LED0_Red");
    assert!(error.message().contains("LED0_Red"));
    assert_eq!(
        error.message(),
        "unsupported Gale LED hardware: missing /fixture/LED0_Red"
    );
}

#[test]
fn applies_scaled_color_and_preserves_led_current() {
    let hardware = fixture_hardware(255);
    let values = hardware
        .channel_values(
            Color {
                red: 160,
                green: 32,
                blue: 240,
            },
            75,
        )
        .unwrap();
    assert_eq!(values, [120, 24, 180]);
    assert_eq!(hardware.channel_names(), ["red", "green", "blue"]);
}

#[test]
fn channel_values_follow_each_range() {
    let channels = vec![
        Channel::new("red", "/r".into(), 1000).unwrap(),
        Channel::new("green", "/g".into(), 1).unwrap(),
        Channel::new("blue", "/b".into(), 255).unwrap(),
    ];
    let hardware = Hardware::from_channels(channels).unwrap();
    let white = Color {
        red: 255,
        green: 255,
        blue: 255,
    };
    assert_eq!(hardware.channel_values(white, 100).unwrap(), [1000, 1, 255]);
    assert_eq!(hardware.channel_values(white, 0).unwrap(), [0, 0, 0]);
    assert!(hardware.channel_values(white, 101).is_err());
    assert!(hardware.levels_fit(white, 100));
    let huge = Hardware::from_channels(vec![
        Channel::new("red", "/r".into(), u32::MAX).unwrap(),
        Channel::new("green", "/g".into(), 1).unwrap(),
        Channel::new("blue", "/b".into(), 1).unwrap(),
    ])
    .unwrap();
    assert!(!huge.levels_fit(white, 100));
    assert!(huge.levels_fit(white, 0));
}

#[test]
fn hardware_checks_and_reports() {
    match Channel::new("red", "/x/LED0_Red".into(), 0) {
        Err(Error::Hardware(message)) => {
            assert_eq!(message, "/x/LED0_Red reports max_brightness 0")
        }
        _ => panic!("a zero range must be refused"),
    }
    match Hardware::from_channels(vec![Channel::new("red", "/r".into(), 5).unwrap()]) {
        Err(Error::Hardware(message)) => {
            assert_eq!(message, "internal channel definition mismatch")
        }
        _ => panic!("two channels are missing"),
    }
    assert_eq!(parse_sysfs_u32("/p", "255").unwrap(), 255);
    assert!(parse_sysfs_u32("/p", "4294967296").is_err());
    assert_eq!(parse_sysfs_u64("/p", "4294967296").unwrap(), 4294967296);
    match parse_sysfs_u32("/p", "x") {
        Err(Error::Hardware(message)) => {
            assert_eq!(message, "/p does not contain a valid non-negative integer")
        }
        _ => panic!("not a number"),
    }
    let hardware = fixture_hardware(255);
    assert_eq!(
        hardware.hardware_json(),
        "{\n  \"supported\": true,\n  \"red\": \"/fixture/LED0_Red\",\n  \"green\": \"/fixture/LED0_Green\",\n  \"blue\": \"/fixture/LED0_Blue\",\n  \"max_brightness\": {\"red\": 255, \"green\": 255, \"blue\": 255}\n}"
    );
    let config = Config::from_values("1", "#A020F0", "75").unwrap();
    assert_eq!(
        hardware.status_json(&config, [120, 24, 180]),
        "{\n  \"configured\": {\"enabled\": true, \"color\": \"#A020F0\", \"brightness\": 75},\n  \"mode\": \"static\",\n  \"interface\": \"br-lan\",\n  \"icmp\": {\"enabled\": false, \"target\": \"1.1.1.1\", \"failure_mode\": \"static\", \"retries\": 3, \"restore\": 2},\n  \"hardware\": {\"red\": 120, \"green\": 24, \"blue\": 180}\n}"
    );
}

#[test]
fn network_paths_and_errors() {
    assert_eq!(network_interface_path("br-lan").unwrap(), "/sys/class/net/br-lan");
    assert!(network_interface_path("../wan").is_err());
    assert_eq!(
        missing_interface_error("wan").message(),
        "invalid gale-led configuration: network interface wan does not exist"
    );
}

#[test]
fn parses_cli_brightness() {
    assert_eq!(parse_brightness_option(&[]).unwrap(), 100);
    assert_eq!(
        parse_brightness_option(&["--brightness".into(), "75".into()]).unwrap(),
        75
    );
    assert!(parse_brightness_option(&["--brightness".into(), "101".into()]).is_err());
    assert!(parse_brightness_option(&["--bright".into(), "75".into()]).is_err());
}

#[test]
fn rejects_negative_and_oversized_components() {
    assert!(parse_component("red", "-1").is_err());
    assert_eq!(parse_component("red", "256").unwrap(), 256);
    assert!(Color::from_components(256, 0, 0).is_err());
}

#[test]
fn argument_counts() {
    let args: Vec<String> = vec!["off".into()];
    assert!(require_arg_count(&args, 1).is_ok());
    let args: Vec<String> = vec!["off".into(), "now".into()];
    match require_arg_count(&args, 1) {
        Err(error) => assert_eq!(
            error.message(),
            "invalid input: off does not accept additional arguments"
        ),
        Ok(()) => panic!("an extra argument must be refused"),
    }
    match parse_component("green", "x") {
        Err(Error::InvalidInput(message)) => {
            assert_eq!(message, "green channel must be an integer between 0 and 255")
        }
        _ => panic!("not a number"),
    }
}

#[test]
fn effect_runtime_frames() {
    let behavior = BehaviorConfig {
        mode: Mode::NetworkActivity,
        color: Color {
            red: 200,
            green: 100,
            blue: 0,
        },
        brightness: 50,
        interface: "wan".into(),
    };
    assert!(BehaviorRuntime::monitors_network(true, &behavior));
    assert!(BehaviorRuntime::needs_initial_counters(true, &behavior));
    let mut runtime = BehaviorRuntime::new(true, &behavior, Some((1, 1)));
    assert_eq!(runtime.sample_need(), SampleNeed::Counters);
    assert_eq!(runtime.frame_interval_ms(), 100);
    let dark = Color {
        red: 0,
        green: 0,
        blue: 0,
    };
    let lit = Color {
        red: 100,
        green: 50,
        blue: 0,
    };
    assert_eq!(runtime.frame(0, 5, NetworkSample::Counters(1, 1)).unwrap(), dark);
    assert_eq!(runtime.frame(0, 5, NetworkSample::Counters(1, 9)).unwrap(), lit);
    assert_eq!(runtime.frame(0, 5, NetworkSample::Counters(1, 9)).unwrap(), dark);
    match runtime.frame(0, 5, NetworkSample::Unmonitored) {
        Err(Error::Config(message)) => {
            assert_eq!(message, "network activity mode requires an interface")
        }
        _ => panic!("a sample is needed"),
    }

    let heartbeat = BehaviorConfig {
        mode: Mode::NetworkHeartbeat,
        ..behavior.clone()
    };
    let mut runtime = BehaviorRuntime::new(true, &heartbeat, None);
    assert_eq!(runtime.sample_need(), SampleNeed::Link);
    assert_eq!(runtime.frame(120, 5, NetworkSample::Link(true)).unwrap(), lit);
    assert_eq!(runtime.frame(120, 5, NetworkSample::Link(false)).unwrap(), dark);

    let breathing = BehaviorConfig {
        mode: Mode::Breathing,
        brightness: 100,
        ..behavior.clone()
    };
    let mut runtime = BehaviorRuntime::new(true, &breathing, None);
    assert_eq!(runtime.sample_need(), SampleNeed::Nothing);
    assert_eq!(runtime.frame_interval_ms(), 50);
    assert_eq!(
        runtime.frame(0, 50, NetworkSample::Unmonitored).unwrap(),
        lit
    );
    let mut off = BehaviorRuntime::new(false, &breathing, None);
    assert_eq!(off.sample_need(), SampleNeed::Nothing);
    assert_eq!(off.frame(0, 50, NetworkSample::Unmonitored).unwrap(), dark);
}

#[test]
fn supervisor_switches_behaviors_and_skips_repeated_colors() {
    let config = Config::from_all_values(
        "1", "#A020F0", "75", "rainbow", "br-lan", "1", "1.1.1.1", "static", "#FF0000", "100",
        "br-lan", "1", "1",
    )
    .unwrap();
    assert!(config.runs_continuously());
    let mut supervisor = Supervisor::new(&config);
    let red = Color {
        red: 255,
        green: 0,
        blue: 0,
    };
    assert_eq!(supervisor.color_to_write(red), Some(red));
    assert_eq!(supervisor.color_to_write(red), None);
    assert!(supervisor.probe_result(&config, true).is_none());
    let (enabled, behavior) = supervisor.probe_result(&config, false).unwrap();
    assert!(enabled);
    assert_eq!(behavior, config.icmp.failure);
    assert_eq!(supervisor.color_to_write(red), Some(red));
    let (enabled, behavior) = supervisor.probe_result(&config, true).unwrap();
    assert!(enabled);
    assert_eq!(behavior, config.normal_behavior());
    assert_eq!(config.monitored_interfaces(), Vec::<String>::new());
}

#[test]
fn disabled_led_stays_dark_on_icmp_failure() {
    let config = Config::from_all_values(
        "0", "#A020F0", "75", "static", "br-lan", "1", "1.1.1.1", "static", "#FF0000", "100",
        "br-lan", "1", "1",
    )
    .unwrap();
    assert!(config.runs_continuously());
    let mut supervisor = Supervisor::new(&config);
    let (enabled, behavior) = supervisor.probe_result(&config, false).unwrap();
    assert!(supervisor.is_failed());
    assert!(!enabled);
    assert_eq!(behavior, config.icmp.failure);
    let mut runtime = BehaviorRuntime::new(enabled, &behavior, None);
    assert_eq!(
        runtime.frame(0, 100, NetworkSample::Unmonitored).unwrap(),
        Color {
            red: 0,
            green: 0,
            blue: 0
        }
    );
    let (enabled, _) = config.behavior_for(true);
    assert!(!enabled);
}

fn text(value: &str) -> Result<Option<String>, Error> {
    Ok(Some(value.to_string()))
}

#[test]
fn configuration_from_stored_options() {
    let config = Config::from_options(
        text("1"),
        text("#A020F0"),
        text("75"),
        Ok(None),
        Ok(None),
        Ok(None),
        Ok(None),
        Ok(None),
        Ok(None),
        Ok(None),
        Ok(None),
        Ok(None),
        Ok(None),
    )
    .unwrap();
    assert_eq!(config, Config::from_values("1", "#A020F0", "75").unwrap());

    let missing = Config::from_options(
        text("1"),
        Ok(None),
        Ok(None),
        text("bad"),
        Ok(None),
        Ok(None),
        Ok(None),
        Ok(None),
        Ok(None),
        Ok(None),
        Ok(None),
        Ok(None),
        Ok(None),
    );
    match missing {
        Err(Error::Config(message)) => {
            assert_eq!(message, "required option gale-led.main.color is missing")
        }
        other => panic!("unexpected {other:?}"),
    }

    let failed = Config::from_options(
        text("1"),
        text("#A020F0"),
        text("75"),
        Err(Error::Config("option gale-led.main.mode is not valid UTF-8".into())),
        Ok(None),
        Ok(None),
        Ok(None),
        Ok(None),
        Ok(None),
        Ok(None),
        Ok(None),
        Ok(None),
        Ok(None),
    );
    match failed {
        Err(Error::Config(message)) => {
            assert_eq!(message, "option gale-led.main.mode is not valid UTF-8")
        }
        other => panic!("unexpected {other:?}"),
    }

    let invalid = Config::from_options(
        text("1"),
        text("#A020F0"),
        text("75"),
        text("breathing"),
        Ok(None),
        text("1"),
        Ok(None),
        Ok(None),
        Ok(None),
        Ok(None),
        Ok(None),
        text("0"),
        Ok(None),
    );
    match invalid {
        Err(Error::Config(message)) => {
            assert_eq!(message, "icmp_retries must be an integer of at least 1")
        }
        other => panic!("unexpected {other:?}"),
    }
}

#[test]
fn ping_arguments_mark_ipv6_targets() {
    assert_eq!(
        ping_arguments("1.1.1.1"),
        vec!["-n", "-c", "1", "-W", "1", "1.1.1.1"]
    );
    assert_eq!(
        ping_arguments("2606:4700:4700::1111"),
        vec!["-n", "-c", "1", "-W", "1", "-6", "2606:4700:4700::1111"]
    );
    assert_eq!(
        ping_arguments("one.one.one.one"),
        vec!["-n", "-c", "1", "-W", "1", "one.one.one.one"]
    );
}

#[test]
fn failover_reports_per_call() {
    for (retries, restore) in [(1, 1), (3, 2), (5, 4)] {
        let mut state = IcmpState::new(&icmp_test_config(true, retries, restore));
        state.observe(true);
        for _ in 1..retries {
            assert_eq!(state.observe(false), None);
        }
        assert_eq!(state.observe(false), Some(true));
        let copy = state.clone();
        assert_eq!(copy, state);
        for _ in 1..restore {
            assert_eq!(state.observe(true), None);
        }
        assert_eq!(state.observe(true), Some(false));
        assert!(copy.is_failed());
    }
}

#[test]
fn io_errors_keep_their_source() {
    let source = std::io::Error::new(std::io::ErrorKind::NotFound, "gone");
    let error = Error::io("unable to read /x".into(), source);
    match &error {
        Error::Io { context, source } => {
            assert_eq!(context, "unable to read /x");
            assert_eq!(source.kind(), std::io::ErrorKind::NotFound);
        }
        _ => panic!("an I/O error"),
    }
    assert_eq!(error.message(), "unable to read /x: gone");
    let hardware = fixture_hardware(255);
    assert_eq!(hardware.clone().channel_names(), ["red", "green", "blue"]);
}
