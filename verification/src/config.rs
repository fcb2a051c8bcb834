//! The LED configuration and its validation from stored text values.

use vstd::prelude::*;

use crate::color::{
    brightness_range_message, color_of_hex, hex_digits_message, hex_form_message, is_hex_color,
    validate_brightness, Color,
};
use crate::error::{fails_config, Error};
use crate::mode::{mode_named, unknown_mode_message, Mode};
use crate::text::{parse_u32, parse_u8, parsed_u32, parsed_u8, str_equals, string_of};
use crate::validate::{
    interface_name_message, is_ip_address_text, is_valid_hostname, is_valid_interface_name,
    probe_target_message, validate_icmp_target, validate_interface_name,
};

verus! {

/// How the LED behaves in one situation (normally, or while the ICMP target
/// is failed).
#[derive(Clone, Debug, PartialEq, Eq)]
pub struct BehaviorConfig {
    pub mode: Mode,
    pub color: Color,
    pub brightness: u8,
    pub interface: String,
}

/// The settings of the ICMP failover.
#[derive(Clone, Debug, PartialEq, Eq)]
pub struct IcmpConfig {
    pub enabled: bool,
    pub target: String,
    pub failure: BehaviorConfig,
    pub retries: u32,
    pub restore: u32,
}

/// The whole LED configuration.
#[derive(Clone, Debug, PartialEq, Eq)]
pub struct Config {
    pub enabled: bool,
    pub color: Color,
    pub brightness: u8,
    pub mode: Mode,
    pub interface: String,
    pub icmp: IcmpConfig,
}

/// A [`BehaviorConfig`] with its text as characters.
pub struct BehaviorConfigView {
    pub mode: Mode,
    pub color: Color,
    pub brightness: u8,
    pub interface: Seq<char>,
}

/// An [`IcmpConfig`] with its text as characters.
pub struct IcmpConfigView {
    pub enabled: bool,
    pub target: Seq<char>,
    pub failure: BehaviorConfigView,
    pub retries: u32,
    pub restore: u32,
}

/// A [`Config`] with its text as characters.
pub struct ConfigView {
    pub enabled: bool,
    pub color: Color,
    pub brightness: u8,
    pub mode: Mode,
    pub interface: Seq<char>,
    pub icmp: IcmpConfigView,
}

impl View for BehaviorConfig {
    type V = BehaviorConfigView;

    open spec fn view(&self) -> BehaviorConfigView {
        BehaviorConfigView {
            mode: self.mode,
            color: self.color,
            brightness: self.brightness,
            interface: self.interface@,
        }
    }
}

impl View for IcmpConfig {
    type V = IcmpConfigView;

    open spec fn view(&self) -> IcmpConfigView {
        IcmpConfigView {
            enabled: self.enabled,
            target: self.target@,
            failure: self.failure@,
            retries: self.retries,
            restore: self.restore,
        }
    }
}

impl View for Config {
    type V = ConfigView;

    open spec fn view(&self) -> ConfigView {
        ConfigView {
            enabled: self.enabled,
            color: self.color,
            brightness: self.brightness,
            mode: self.mode,
            interface: self.interface@,
            icmp: self.icmp@,
        }
    }
}

/// The ICMP settings used when ICMP failover is off: disabled, probing
/// `1.1.1.1`, static full red on `br-lan` on failure, 3 failures to fail and
/// 2 successes to recover.
pub open spec fn default_icmp_view() -> IcmpConfigView {
    IcmpConfigView {
        enabled: false,
        target: "1.1.1.1"@,
        failure: BehaviorConfigView {
            mode: Mode::Static,
            color: Color { red: 255, green: 0, blue: 0 },
            brightness: 100,
            interface: "br-lan"@,
        },
        retries: 3,
        restore: 2,
    }
}

/// The thirteen stored text values a configuration is read from.
pub struct ConfigText {
    pub enabled: Seq<char>,
    pub color: Seq<char>,
    pub brightness: Seq<char>,
    pub mode: Seq<char>,
    pub interface: Seq<char>,
    pub icmp_enabled: Seq<char>,
    pub icmp_target: Seq<char>,
    pub failure_mode: Seq<char>,
    pub failure_color: Seq<char>,
    pub failure_brightness: Seq<char>,
    pub failure_interface: Seq<char>,
    pub icmp_retries: Seq<char>,
    pub icmp_restore: Seq<char>,
}

/// A switch stored as `1` (on) or `0` (off).
pub open spec fn flag_value(s: Seq<char>) -> Option<bool> {
    if s == "1"@ {
        Some(true)
    } else if s == "0"@ {
        Some(false)
    } else {
        None
    }
}

/// Why a stored color is rejected, if it is.
pub open spec fn color_error(s: Seq<char>) -> Option<Seq<char>> {
    if is_hex_color(s) {
        None
    } else if s.len() == 0 || s[0] != '#' {
        Some("invalid input: "@ + hex_form_message())
    } else {
        Some("invalid input: "@ + hex_digits_message())
    }
}

/// Why a stored brightness is rejected, if it is; `unparsable` is the
/// message of a value that is not a `u8`.
pub open spec fn brightness_error(s: Seq<char>, unparsable: Seq<char>) -> Option<Seq<char>> {
    match parsed_u8(s) {
        None => Some(unparsable),
        Some(b) => if b > 100 {
            Some("invalid input: "@ + brightness_range_message())
        } else {
            None
        },
    }
}

/// A stored probe count: a `u32` of at least 1.
pub open spec fn threshold_value(s: Seq<char>) -> Option<u32> {
    match parsed_u32(s) {
        Some(v) => if v >= 1 {
            Some(v)
        } else {
            None
        },
        None => None,
    }
}

/// The message of the first stored value that is rejected, in the order the
/// values are checked, or `None` when the configuration is valid. The ICMP
/// settings after `icmp_enabled` are only checked when it is `1`.
pub open spec fn config_error(t: ConfigText) -> Option<Seq<char>> {
    if flag_value(t.enabled) is None {
        Some("enabled must be 0 or 1"@)
    } else if color_error(t.color) is Some {
        color_error(t.color)
    } else if brightness_error(
        t.brightness,
        "brightness must be an integer from 0 through 100"@,
    ) is Some {
        brightness_error(t.brightness, "brightness must be an integer from 0 through 100"@)
    } else if mode_named(t.mode) is None {
        Some(unknown_mode_message(t.mode))
    } else if !is_valid_interface_name(t.interface) {
        Some(interface_name_message())
    } else if flag_value(t.icmp_enabled) is None {
        Some("icmp_enabled must be 0 or 1"@)
    } else if flag_value(t.icmp_enabled) == Some(false) {
        None
    } else if !(is_ip_address_text(t.icmp_target) || is_valid_hostname(t.icmp_target)) {
        Some(probe_target_message())
    } else if mode_named(t.failure_mode) is None {
        Some(unknown_mode_message(t.failure_mode))
    } else if color_error(t.failure_color) is Some {
        color_error(t.failure_color)
    } else if brightness_error(
        t.failure_brightness,
        "failure_brightness must be an integer from 0 through 100"@,
    ) is Some {
        brightness_error(
            t.failure_brightness,
            "failure_brightness must be an integer from 0 through 100"@,
        )
    } else if !is_valid_interface_name(t.failure_interface) {
        Some(interface_name_message())
    } else if threshold_value(t.icmp_retries) is None {
        Some("icmp_retries must be an integer of at least 1"@)
    } else if threshold_value(t.icmp_restore) is None {
        Some("icmp_restore must be an integer of at least 1"@)
    } else {
        None
    }
}

/// The configuration that valid stored values denote.
pub open spec fn config_value(t: ConfigText) -> ConfigView {
    ConfigView {
        enabled: flag_value(t.enabled) == Some(true),
        color: color_of_hex(t.color),
        brightness: parsed_u8(t.brightness).unwrap(),
        mode: mode_named(t.mode).unwrap(),
        interface: t.interface,
        icmp: if flag_value(t.icmp_enabled) == Some(true) {
            IcmpConfigView {
                enabled: true,
                target: t.icmp_target,
                failure: BehaviorConfigView {
                    mode: mode_named(t.failure_mode).unwrap(),
                    color: color_of_hex(t.failure_color),
                    brightness: parsed_u8(t.failure_brightness).unwrap(),
                    interface: t.failure_interface,
                },
                retries: threshold_value(t.icmp_retries).unwrap(),
                restore: threshold_value(t.icmp_restore).unwrap(),
            }
        } else {
            default_icmp_view()
        },
    }
}

/// The stored values `from_values` and `from_extended_values` complete with
/// the defaults of the later settings.
pub open spec fn extended_text(
    enabled: Seq<char>,
    color: Seq<char>,
    brightness: Seq<char>,
    mode: Seq<char>,
    interface: Seq<char>,
) -> ConfigText {
    ConfigText {
        enabled,
        color,
        brightness,
        mode,
        interface,
        icmp_enabled: "0"@,
        icmp_target: "1.1.1.1"@,
        failure_mode: "static"@,
        failure_color: "#FF0000"@,
        failure_brightness: "100"@,
        failure_interface: "br-lan"@,
        icmp_retries: "3"@,
        icmp_restore: "2"@,
    }
}

/// The result of reading a configuration from stored values: the
/// configuration when they are valid, else a `Config` error with the message
/// of the first rejected value.
pub open spec fn config_outcome(r: Result<Config, Error>, t: ConfigText) -> bool {
    &&& config_error(t) is None ==> (r matches Ok(c) && c@ == config_value(t))
    &&& config_error(t) matches Some(m) ==> fails_config(r, m)
}

impl Default for IcmpConfig {
    /// The ICMP settings used when ICMP failover is off.
    fn default() -> (r: Self)
        ensures
            r@ == default_icmp_view(),
    {
        IcmpConfig {
            enabled: false,
            target: string_of("1.1.1.1"),
            failure: BehaviorConfig {
                mode: Mode::Static,
                color: Color { red: 255, green: 0, blue: 0 },
                brightness: 100,
                interface: string_of("br-lan"),
            },
            retries: 3,
            restore: 2,
        }
    }
}

/// Reads a `1`/`0` switch.
fn parse_flag(s: &str) -> (r: Option<bool>)
    ensures
        r == flag_value(s@),
{
    if str_equals(s, "1") {
        Some(true)
    } else if str_equals(s, "0") {
        Some(false)
    } else {
        None
    }
}

/// Reads a stored color; an invalid one is a `Config` error with the text
/// of the color error.
fn parse_stored_color(s: &str) -> (r: Result<Color, Error>)
    ensures
        color_error(s@) is None ==> r == Ok::<Color, Error>(color_of_hex(s@)),
        color_error(s@) matches Some(m) ==> fails_config(r, m),
{
    match Color::from_hex(s) {
        Ok(c) => Ok(c),
        Err(e) => Err(Error::Config(e.message())),
    }
}

/// Reads a stored brightness; `unparsable` is the message of a value that
/// is not a `u8`.
fn parse_stored_brightness(s: &str, unparsable: &str) -> (r: Result<u8, Error>)
    ensures
        brightness_error(s@, unparsable@) is None ==> r == Ok::<u8, Error>(parsed_u8(s@).unwrap()),
        brightness_error(s@, unparsable@) matches Some(m) ==> fails_config(r, m),
{
    let b = match parse_u8(s) {
        Some(b) => b,
        None => return Err(Error::Config(string_of(unparsable))),
    };
    match validate_brightness(b) {
        Ok(()) => Ok(b),
        Err(e) => Err(Error::Config(e.message())),
    }
}

/// Reads a stored probe count; `message` is the message of a value that is
/// not a `u32` of at least 1.
fn parse_threshold(s: &str, message: &str) -> (r: Result<u32, Error>)
    ensures
        threshold_value(s@) matches Some(v) ==> r == Ok::<u32, Error>(v),
        threshold_value(s@) is None ==> fails_config(r, message@),
{
    match parse_u32(s) {
        Some(v) => if v >= 1 {
            Ok(v)
        } else {
            Err(Error::Config(string_of(message)))
        },
        None => Err(Error::Config(string_of(message))),
    }
}

impl Config {
    /// Reads a configuration from the three basic stored values; the mode is
    /// `static` on `br-lan` and ICMP failover is off.
    pub fn from_values(enabled: &str, color: &str, brightness: &str) -> (r: Result<Self, Error>)
        ensures
            config_outcome(r, extended_text(enabled@, color@, brightness@, "static"@, "br-lan"@)),
    {
        Self::from_extended_values(enabled, color, brightness, "static", "br-lan")
    }

    /// Reads a configuration from the stored values of the normal behavior;
    /// ICMP failover is off.
    pub fn from_extended_values(
        enabled: &str,
        color: &str,
        brightness: &str,
        mode: &str,
        interface: &str,
    ) -> (r: Result<Self, Error>)
        ensures
            config_outcome(r, extended_text(enabled@, color@, brightness@, mode@, interface@)),
    {
        Self::from_all_values(
            enabled,
            color,
            brightness,
            mode,
            interface,
            "0",
            "1.1.1.1",
            "static",
            "#FF0000",
            "100",
            "br-lan",
            "3",
            "2",
        )
    }

    /// Reads and validates a configuration from all thirteen stored values.
    /// The ICMP settings after `icmp_enabled` are only read when it is `1`;
    /// otherwise the defaults apply.
    #[verifier::rlimit(40)]
    pub fn from_all_values(
        enabled: &str,
        color: &str,
        brightness: &str,
        mode: &str,
        interface: &str,
        icmp_enabled: &str,
        icmp_target: &str,
        failure_mode: &str,
        failure_color: &str,
        failure_brightness: &str,
        failure_interface: &str,
        icmp_retries: &str,
        icmp_restore: &str,
    ) -> (r: Result<Self, Error>)
        ensures
            config_outcome(
                r,
                ConfigText {
                    enabled: enabled@,
                    color: color@,
                    brightness: brightness@,
                    mode: mode@,
                    interface: interface@,
                    icmp_enabled: icmp_enabled@,
                    icmp_target: icmp_target@,
                    failure_mode: failure_mode@,
                    failure_color: failure_color@,
                    failure_brightness: failure_brightness@,
                    failure_interface: failure_interface@,
                    icmp_retries: icmp_retries@,
                    icmp_restore: icmp_restore@,
                },
            ),
    {
        let enabled = match parse_flag(enabled) {
            Some(b) => b,
            None => return Err(Error::Config(string_of("enabled must be 0 or 1"))),
        };
        let color = parse_stored_color(color)?;
        let brightness = parse_stored_brightness(
            brightness,
            "brightness must be an integer from 0 through 100",
        )?;
        let mode = Mode::parse(mode)?;
        validate_interface_name(interface)?;
        let probing = match parse_flag(icmp_enabled) {
            Some(b) => b,
            None => return Err(Error::Config(string_of("icmp_enabled must be 0 or 1"))),
        };
        let icmp = if probing {
            validate_icmp_target(icmp_target)?;
            let failure_mode = Mode::parse(failure_mode)?;
            let failure_color = parse_stored_color(failure_color)?;
            let failure_brightness = parse_stored_brightness(
                failure_brightness,
                "failure_brightness must be an integer from 0 through 100",
            )?;
            validate_interface_name(failure_interface)?;
            let failure = BehaviorConfig {
                mode: failure_mode,
                color: failure_color,
                brightness: failure_brightness,
                interface: string_of(failure_interface),
            };
            let retries = parse_threshold(
                icmp_retries,
                "icmp_retries must be an integer of at least 1",
            )?;
            let restore = parse_threshold(
                icmp_restore,
                "icmp_restore must be an integer of at least 1",
            )?;
            IcmpConfig {
                enabled: true,
                target: string_of(icmp_target),
                failure,
                retries,
                restore,
            }
        } else {
            IcmpConfig::default()
        };
        Ok(Config { enabled, color, brightness, mode, interface: string_of(interface), icmp })
    }

    /// The normal behavior of the LED: the configured mode, color,
    /// brightness and interface.
    pub fn normal_behavior(&self) -> (r: BehaviorConfig)
        ensures
            r@ == (BehaviorConfigView {
                mode: self.mode,
                color: self.color,
                brightness: self.brightness,
                interface: self.interface@,
            }),
    {
        BehaviorConfig {
            mode: self.mode,
            color: self.color,
            brightness: self.brightness,
            interface: self.interface.clone(),
        }
    }
}

} // verus!

verus! {

/// With ICMP failover off (`icmp_enabled` is `0`), the later ICMP settings
/// are neither checked nor used: whether the values are accepted and the
/// configuration they give depend only on the first six values, and the ICMP
/// settings are the defaults.
pub proof fn lemma_disabled_probe_ignores_settings(t: ConfigText, u: ConfigText)
    requires
        t.icmp_enabled == "0"@,
        u.icmp_enabled == "0"@,
        t.enabled == u.enabled,
        t.color == u.color,
        t.brightness == u.brightness,
        t.mode == u.mode,
        t.interface == u.interface,
    ensures
        config_error(t) == config_error(u),
        config_error(t) is None ==> config_value(t) == config_value(u),
        config_value(t).icmp == default_icmp_view(),
{
    reveal_strlit("0");
    reveal_strlit("1");
    assert("0"@ != "1"@) by {
        assert("0"@[0] != "1"@[0]);
    }
    assert(flag_value(t.icmp_enabled) == Some(false));
}

} // verus!

verus! {

/// Whatever the stored values, a configuration that is accepted never holds
/// an out-of-range brightness, an unsafe interface name, an invalid ICMP
/// target or a zero probe count: the bounds the LED relies on hold of every
/// accepted configuration.
pub proof fn lemma_accepted_config_is_in_range(t: ConfigText)
    requires
        config_error(t) is None,
    ensures
        ({
            let c = config_value(t);
            &&& c.brightness <= 100
            &&& is_valid_interface_name(c.interface)
            &&& c.icmp.failure.brightness <= 100
            &&& is_valid_interface_name(c.icmp.failure.interface)
            &&& c.icmp.retries >= 1
            &&& c.icmp.restore >= 1
            &&& c.icmp.enabled ==> (is_ip_address_text(c.icmp.target) || is_valid_hostname(
                c.icmp.target,
            ))
        }),
{
    reveal_strlit("br-lan");
    assert(is_valid_interface_name("br-lan"@));
}

} // verus!

verus! {

/// What reading one stored option gave.
pub enum OptionRead {
    /// The option's text, or its default when it is not set.
    Text(Seq<char>),
    /// Reading the option failed with this error.
    Failed(Error),
    /// A required option is not set.
    Missing,
}

/// What reading an option gave, given its default (`None` for a required
/// option).
pub open spec fn option_read(o: Result<Option<String>, Error>, default: Option<Seq<char>>) -> OptionRead {
    match o {
        Err(e) => OptionRead::Failed(e),
        Ok(Some(s)) => OptionRead::Text(s@),
        Ok(None) => match default {
            Some(d) => OptionRead::Text(d),
            None => OptionRead::Missing,
        },
    }
}

/// The names of the stored options, in the order they are read.
pub open spec fn option_names() -> Seq<Seq<char>> {
    seq![
        "enabled"@,
        "color"@,
        "brightness"@,
        "mode"@,
        "interface"@,
        "icmp_enabled"@,
        "icmp_target"@,
        "failure_mode"@,
        "failure_color"@,
        "failure_brightness"@,
        "failure_interface"@,
        "icmp_retries"@,
        "icmp_restore"@,
    ]
}

/// The message of a required option that is not set.
pub open spec fn missing_option_message(name: Seq<char>) -> Seq<char> {
    "required option gale-led.main."@ + name + " is missing"@
}

/// The index of the first read, from `i` on, that gave no text.
pub open spec fn first_unread(reads: Seq<OptionRead>, i: int) -> Option<int>
    decreases reads.len() - i,
{
    if i < 0 || i >= reads.len() {
        None
    } else if reads[i] is Text {
        first_unread(reads, i + 1)
    } else {
        Some(i)
    }
}

/// The text a read gave.
pub open spec fn read_text(r: OptionRead) -> Seq<char> {
    match r {
        OptionRead::Text(s) => s,
        _ => Seq::<char>::empty(),
    }
}

/// The stored values given by thirteen reads that all gave text.
pub open spec fn text_of_reads(r: Seq<OptionRead>) -> ConfigText {
    ConfigText {
        enabled: read_text(r[0]),
        color: read_text(r[1]),
        brightness: read_text(r[2]),
        mode: read_text(r[3]),
        interface: read_text(r[4]),
        icmp_enabled: read_text(r[5]),
        icmp_target: read_text(r[6]),
        failure_mode: read_text(r[7]),
        failure_color: read_text(r[8]),
        failure_brightness: read_text(r[9]),
        failure_interface: read_text(r[10]),
        icmp_retries: read_text(r[11]),
        icmp_restore: read_text(r[12]),
    }
}

/// The result of building a configuration from the reads of the stored
/// options: the error of the first read that failed or of the first required
/// option that is not set, else the result of reading the configuration from
/// the texts, with the defaults for options that are not set.
pub open spec fn options_outcome(r: Result<Config, Error>, reads: Seq<OptionRead>) -> bool {
    match first_unread(reads, 0) {
        Some(k) => match reads[k] {
            OptionRead::Failed(e) => r == Err::<Config, Error>(e),
            _ => fails_config(r, missing_option_message(option_names()[k])),
        },
        None => config_outcome(r, text_of_reads(reads)),
    }
}

/// The text of a required option, or its error.
fn required_option(o: Result<Option<String>, Error>, name: &str) -> (r: Result<String, Error>)
    ensures
        match option_read(o, None) {
            OptionRead::Text(s) => (r matches Ok(t) && t@ == s),
            OptionRead::Failed(e) => r == Err::<String, Error>(e),
            OptionRead::Missing => fails_config(r, missing_option_message(name@)),
        },
{
    match o {
        Err(e) => Err(e),
        Ok(Some(s)) => Ok(s),
        Ok(None) => {
            let mut m = string_of("required option gale-led.main.");
            crate::text::push_str(&mut m, name);
            crate::text::push_str(&mut m, " is missing");
            Err(Error::Config(m))
        },
    }
}

/// The text of an optional option, its default when it is not set, or its
/// error.
fn optional_option(o: Result<Option<String>, Error>, default: &str) -> (r: Result<String, Error>)
    ensures
        match option_read(o, Some(default@)) {
            OptionRead::Text(s) => (r matches Ok(t) && t@ == s),
            OptionRead::Failed(e) => r == Err::<String, Error>(e),
            OptionRead::Missing => false,
        },
{
    match o {
        Err(e) => Err(e),
        Ok(Some(s)) => Ok(s),
        Ok(None) => Ok(string_of(default)),
    }
}

impl Config {
    /// Builds the configuration from what reading each stored option gave:
    /// the text of an option that is set, `None` for one that is not, or the
    /// error of a failed read. `enabled`, `color` and `brightness` are
    /// required; the other options default to `static`, `br-lan`, `0`,
    /// `1.1.1.1`, `static`, `#FF0000`, `100`, `br-lan`, `3` and `2`. The
    /// options are taken in this order and the first failed read or missing
    /// required option is the error.
    #[verifier::rlimit(60)]
    pub fn from_options(
        enabled: Result<Option<String>, Error>,
        color: Result<Option<String>, Error>,
        brightness: Result<Option<String>, Error>,
        mode: Result<Option<String>, Error>,
        interface: Result<Option<String>, Error>,
        icmp_enabled: Result<Option<String>, Error>,
        icmp_target: Result<Option<String>, Error>,
        failure_mode: Result<Option<String>, Error>,
        failure_color: Result<Option<String>, Error>,
        failure_brightness: Result<Option<String>, Error>,
        failure_interface: Result<Option<String>, Error>,
        icmp_retries: Result<Option<String>, Error>,
        icmp_restore: Result<Option<String>, Error>,
    ) -> (r: Result<Self, Error>)
        ensures
            options_outcome(
                r,
                seq![
                    option_read(enabled, None),
                    option_read(color, None),
                    option_read(brightness, None),
                    option_read(mode, Some("static"@)),
                    option_read(interface, Some("br-lan"@)),
                    option_read(icmp_enabled, Some("0"@)),
                    option_read(icmp_target, Some("1.1.1.1"@)),
                    option_read(failure_mode, Some("static"@)),
                    option_read(failure_color, Some("#FF0000"@)),
                    option_read(failure_brightness, Some("100"@)),
                    option_read(failure_interface, Some("br-lan"@)),
                    option_read(icmp_retries, Some("3"@)),
                    option_read(icmp_restore, Some("2"@)),
                ],
            ),
    {
        let ghost reads = seq![
            option_read(enabled, None),
            option_read(color, None),
            option_read(brightness, None),
            option_read(mode, Some("static"@)),
            option_read(interface, Some("br-lan"@)),
            option_read(icmp_enabled, Some("0"@)),
            option_read(icmp_target, Some("1.1.1.1"@)),
            option_read(failure_mode, Some("static"@)),
            option_read(failure_color, Some("#FF0000"@)),
            option_read(failure_brightness, Some("100"@)),
            option_read(failure_interface, Some("br-lan"@)),
            option_read(icmp_retries, Some("3"@)),
            option_read(icmp_restore, Some("2"@)),
        ];
        proof {
            reveal_with_fuel(first_unread, 14);
        }
        let v0 = required_option(enabled, "enabled")?;
        let v1 = required_option(color, "color")?;
        let v2 = required_option(brightness, "brightness")?;
        let v3 = optional_option(mode, "static")?;
        let v4 = optional_option(interface, "br-lan")?;
        let v5 = optional_option(icmp_enabled, "0")?;
        let v6 = optional_option(icmp_target, "1.1.1.1")?;
        let v7 = optional_option(failure_mode, "static")?;
        let v8 = optional_option(failure_color, "#FF0000")?;
        let v9 = optional_option(failure_brightness, "100")?;
        let v10 = optional_option(failure_interface, "br-lan")?;
        let v11 = optional_option(icmp_retries, "3")?;
        let v12 = optional_option(icmp_restore, "2")?;
        assert(first_unread(reads, 0) is None);
        Self::from_all_values(
            v0.as_str(),
            v1.as_str(),
            v2.as_str(),
            v3.as_str(),
            v4.as_str(),
            v5.as_str(),
            v6.as_str(),
            v7.as_str(),
            v8.as_str(),
            v9.as_str(),
            v10.as_str(),
            v11.as_str(),
            v12.as_str(),
        )
    }
}

} // verus!
