//! The three LED channels of the router, the brightness values written to
//! them, and the JSON reports about them. Reading and writing the sysfs files
//! is left to the caller.

use vstd::prelude::*;

use crate::color::{brightness_range_message, hex_text, scaled_color, Color};
use crate::config::Config;
use crate::error::{fails_hardware, fails_invalid_input, is_hardware_error, Error};
use crate::mode::mode_name;
use crate::text::{
    bool_text, parse_u32, parse_u64, parsed_u32, parsed_u64, push_bool, push_str, push_u32,
    push_u8, string_of, u32_text, u8_text,
};

verus! {

/// The sysfs root under which the LED channels are found.
pub fn sysfs_root() -> (r: &'static str)
    ensures
        r@ == "/sys/class/leds"@,
{
    "/sys/class/leds"
}

/// The sysfs root of the network interfaces.
pub fn sysfs_net_root() -> (r: &'static str)
    ensures
        r@ == "/sys/class/net"@,
{
    "/sys/class/net"
}

/// The channels in order: their names and the sysfs directories of the LEDs.
pub fn channel_definitions() -> (r: [(&'static str, &'static str); 3])
    ensures
        r[0].0@ == "red"@ && r[0].1@ == "LED0_Red"@,
        r[1].0@ == "green"@ && r[1].1@ == "LED0_Green"@,
        r[2].0@ == "blue"@ && r[2].1@ == "LED0_Blue"@,
{
    [("red", "LED0_Red"), ("green", "LED0_Green"), ("blue", "LED0_Blue")]
}

/// The files every channel directory must hold before the LED is taken over.
pub fn channel_files() -> (r: [&'static str; 3])
    ensures
        r[0]@ == "brightness"@,
        r[1]@ == "max_brightness"@,
        r[2]@ == "trigger"@,
{
    ["brightness", "max_brightness", "trigger"]
}

/// The trigger written to every channel when the LED is taken over, so that
/// the kernel no longer drives it.
pub fn takeover_trigger() -> (r: &'static str)
    ensures
        r@ == "none"@,
{
    "none"
}

/// One LED channel: its name, its sysfs directory and its largest
/// brightness value, which is never 0.
#[derive(Debug)]
pub struct Channel {
    name: &'static str,
    path: String,
    max_brightness: u32,
}

/// What a [`Channel`] holds.
pub struct ChannelView {
    pub name: Seq<char>,
    pub path: Seq<char>,
    pub max_brightness: u32,
}

impl View for Channel {
    type V = ChannelView;

    closed spec fn view(&self) -> ChannelView {
        ChannelView { name: self.name@, path: self.path@, max_brightness: self.max_brightness }
    }
}

/// The message of a file that does not hold a number.
pub open spec fn not_a_number_message(path: Seq<char>) -> Seq<char> {
    path + " does not contain a valid non-negative integer"@
}

/// The value written to a channel whose largest brightness is `max` for the
/// 8-bit channel value `value`, rounded to nearest.
pub open spec fn channel_level(value: u8, max: u32) -> int {
    (value * max + 127) / 255
}

/// The channel values fit in 32 bits for the color `c`.
pub open spec fn levels_fit(c: Color, maxes: Seq<u32>) -> bool {
    &&& c.red * maxes[0] + 127 <= u32::MAX
    &&& c.green * maxes[1] + 127 <= u32::MAX
    &&& c.blue * maxes[2] + 127 <= u32::MAX
}

impl Clone for Channel {
    /// A copy of the channel.
    fn clone(&self) -> (r: Self)
        ensures
            r@ == self@,
    {
        proof {
            use_type_invariant(self);
        }
        Channel { name: self.name, path: self.path.clone(), max_brightness: self.max_brightness }
    }
}

impl Clone for Hardware {
    /// A copy of the channels.
    fn clone(&self) -> (r: Self)
        ensures
            r@ == self@,
    {
        let r = Hardware {
            channels: [
                self.channels[0].clone(),
                self.channels[1].clone(),
                self.channels[2].clone(),
            ],
        };
        assert(r@ =~= self@);
        r
    }
}

impl Channel {
    #[verifier::type_invariant]
    spec fn lit(self) -> bool {
        self.max_brightness > 0
    }

    /// A channel named `name` found at `path` with the largest brightness
    /// `max_brightness`, which must not be 0.
    pub fn new(name: &'static str, path: String, max_brightness: u32) -> (r: Result<Self, Error>)
        ensures
            max_brightness > 0 ==> (r matches Ok(c) && c@ == (ChannelView {
                name: name@,
                path: path@,
                max_brightness,
            })),
            max_brightness == 0 ==> fails_hardware(r, path@ + " reports max_brightness 0"@),
    {
        if max_brightness == 0 {
            let mut m = path;
            push_str(&mut m, " reports max_brightness 0");
            return Err(Error::Hardware(m));
        }
        Ok(Channel { name, path, max_brightness })
    }

    /// The channel's largest brightness, which is never 0.
    pub fn max_brightness(&self) -> (r: u32)
        ensures
            r == self@.max_brightness,
            r > 0,
    {
        proof {
            use_type_invariant(self);
        }
        self.max_brightness
    }

    /// The channel's sysfs directory.
    pub fn path(&self) -> (r: &str)
        ensures
            r@ == self@.path,
    {
        self.path.as_str()
    }
}

/// The three channels of the LED, red, green and blue.
#[derive(Debug)]
pub struct Hardware {
    channels: [Channel; 3],
}

impl View for Hardware {
    type V = Seq<ChannelView>;

    closed spec fn view(&self) -> Seq<ChannelView> {
        self.channels@.map_values(|c: Channel| c@)
    }
}

/// The message of a missing file or directory.
pub open spec fn missing_message(path: Seq<char>) -> Seq<char> {
    "missing "@ + path
}

/// The `Hardware` error of a missing file or directory at `path`.
pub fn missing_path_error(path: &str) -> (e: Error)
    ensures
        is_hardware_error(e, missing_message(path@)),
{
    let mut m = string_of("missing ");
    push_str(&mut m, path);
    Error::Hardware(m)
}

/// Reads a `u32` from the trimmed text of the sysfs file at `path`.
pub fn parse_sysfs_u32(path: &str, text: &str) -> (r: Result<u32, Error>)
    ensures
        parsed_u32(text@) matches Some(v) ==> r == Ok::<u32, Error>(v),
        parsed_u32(text@) is None ==> fails_hardware(r, not_a_number_message(path@)),
{
    match parse_u32(text) {
        Some(v) => Ok(v),
        None => Err(not_a_number_error(path)),
    }
}

/// Reads a `u64` from the trimmed text of the sysfs file at `path`.
pub fn parse_sysfs_u64(path: &str, text: &str) -> (r: Result<u64, Error>)
    ensures
        parsed_u64(text@) matches Some(v) ==> r == Ok::<u64, Error>(v),
        parsed_u64(text@) is None ==> fails_hardware(r, not_a_number_message(path@)),
{
    match parse_u64(text) {
        Some(v) => Ok(v),
        None => Err(not_a_number_error(path)),
    }
}

fn not_a_number_error(path: &str) -> (e: Error)
    ensures
        is_hardware_error(e, not_a_number_message(path@)),
{
    let mut m = string_of(path);
    push_str(&mut m, " does not contain a valid non-negative integer");
    Error::Hardware(m)
}

/// Whether the brightness value for `value` can be computed in 32 bits.
fn level_fits(value: u8, max: u32) -> (r: bool)
    ensures
        r == (value * max + 127 <= u32::MAX),
{
    assert(value * max <= 255 * 4294967295) by (nonlinear_arith)
        requires
            value <= 255,
            max <= 4294967295,
    ;
    (value as u64) * (max as u64) + 127 <= 4294967295
}

/// The brightness value for the 8-bit channel value `value`.
fn level(value: u8, max: u32) -> (r: u32)
    requires
        value * max + 127 <= u32::MAX,
    ensures
        r == channel_level(value, max),
{
    ((value as u32) * max + 127) / 255
}

/// The hardware report: the channel directories and largest brightness
/// values, as JSON.
pub open spec fn hardware_json_text(h: Seq<ChannelView>) -> Seq<char> {
    "{\n  \"supported\": true,\n  \"red\": \""@ + h[0].path + "\",\n  \"green\": \""@ + h[1].path
        + "\",\n  \"blue\": \""@ + h[2].path + "\",\n  \"max_brightness\": {\"red\": "@ + u32_text(
        h[0].max_brightness,
    ) + ", \"green\": "@ + u32_text(h[1].max_brightness) + ", \"blue\": "@ + u32_text(
        h[2].max_brightness,
    ) + "}\n}"@
}

/// The status report of a configuration and the brightness values read from
/// the channels, as JSON.
pub open spec fn status_json_text(c: Config, values: Seq<u32>) -> Seq<char> {
    "{\n  \"configured\": {\"enabled\": "@ + bool_text(c.enabled) + ", \"color\": \""@ + hex_text(
        c.color,
    ) + "\", \"brightness\": "@ + u8_text(c.brightness) + "},\n  \"mode\": \""@ + mode_name(c.mode)
        + "\",\n  \"interface\": \""@ + c.interface@ + "\",\n  \"icmp\": {\"enabled\": "@ + bool_text(
        c.icmp.enabled,
    ) + ", \"target\": \""@ + c.icmp.target@ + "\", \"failure_mode\": \""@ + mode_name(
        c.icmp.failure.mode,
    ) + "\", \"retries\": "@ + u32_text(c.icmp.retries) + ", \"restore\": "@ + u32_text(
        c.icmp.restore,
    ) + "},\n  \"hardware\": {\"red\": "@ + u32_text(values[0]) + ", \"green\": "@ + u32_text(
        values[1],
    ) + ", \"blue\": "@ + u32_text(values[2]) + "}\n}"@
}

impl Hardware {
    /// The hardware made of the channels found, which must be exactly three:
    /// red, green and blue, in this order.
    pub fn from_channels(channels: Vec<Channel>) -> (r: Result<Self, Error>)
        ensures
            channels@.len() == 3 ==> (r matches Ok(h) && h@ == channels@.map_values(
                |c: Channel| c@,
            )),
            channels@.len() != 3 ==> fails_hardware(r, "internal channel definition mismatch"@),
    {
        let ghost original = channels@;
        if channels.len() != 3 {
            return Err(Error::Hardware(string_of("internal channel definition mismatch")));
        }
        let mut channels = channels;
        let blue = channels.pop().unwrap();
        let green = channels.pop().unwrap();
        let red = channels.pop().unwrap();
        let h = Hardware { channels: [red, green, blue] };
        assert(h@ =~= original.map_values(|c: Channel| c@));
        Ok(h)
    }

    /// The largest brightness values of the channels.
    pub fn max_brightness_values(&self) -> (r: [u32; 3])
        ensures
            r@ == self@.map_values(|c: ChannelView| c.max_brightness),
    {
        let r = [
            self.channels[0].max_brightness,
            self.channels[1].max_brightness,
            self.channels[2].max_brightness,
        ];
        assert(r@ =~= self@.map_values(|c: ChannelView| c.max_brightness));
        r
    }

    /// Whether the brightness values for the color `color` scaled by
    /// `brightness` can be computed in 32 bits.
    pub fn levels_fit(&self, color: Color, brightness: u8) -> (r: bool)
        ensures
            brightness <= 100 ==> r == levels_fit(
                scaled_color(color, brightness),
                self@.map_values(|c: ChannelView| c.max_brightness),
            ),
            brightness > 100 ==> r,
    {
        let maxes = self.max_brightness_values();
        let scaled = match color.scaled(brightness) {
            Ok(c) => c,
            Err(_) => return true,
        };
        level_fits(scaled.red, maxes[0]) && level_fits(scaled.green, maxes[1]) && level_fits(
            scaled.blue,
            maxes[2],
        )
    }

    /// The brightness values written to the red, green and blue channels for
    /// the color `color` at the brightness percentage `brightness`: each
    /// channel of the scaled color mapped onto the channel's range, rounded
    /// to nearest.
    pub fn channel_values(&self, color: Color, brightness: u8) -> (r: Result<[u32; 3], Error>)
        requires
            brightness <= 100 ==> levels_fit(
                scaled_color(color, brightness),
                self@.map_values(|c: ChannelView| c.max_brightness),
            ),
        ensures
            brightness <= 100 ==> (r matches Ok(v) && v@ == seq![
                channel_level(scaled_color(color, brightness).red, self@[0].max_brightness),
                channel_level(scaled_color(color, brightness).green, self@[1].max_brightness),
                channel_level(scaled_color(color, brightness).blue, self@[2].max_brightness),
            ].map_values(|x: int| x as u32)),
            brightness > 100 ==> fails_invalid_input(r, brightness_range_message()),
    {
        let scaled = color.scaled(brightness)?;
        let maxes = self.max_brightness_values();
        let v = [
            level(scaled.red, maxes[0]),
            level(scaled.green, maxes[1]),
            level(scaled.blue, maxes[2]),
        ];
        assert(v@ =~= seq![
            channel_level(scaled.red, maxes[0]),
            channel_level(scaled.green, maxes[1]),
            channel_level(scaled.blue, maxes[2]),
        ].map_values(|x: int| x as u32));
        Ok(v)
    }

    /// The names of the channels, in order.
    pub fn channel_names(&self) -> (r: [&'static str; 3])
        ensures
            r@.map_values(|s: &str| s@) == self@.map_values(|c: ChannelView| c.name),
    {
        let r = [self.channels[0].name, self.channels[1].name, self.channels[2].name];
        assert(r@.map_values(|s: &str| s@) =~= self@.map_values(|c: ChannelView| c.name));
        r
    }

    /// The sysfs directories of the channels, in order.
    pub fn channel_paths(&self) -> (r: [&str; 3])
        ensures
            r@.map_values(|s: &str| s@) == self@.map_values(|c: ChannelView| c.path),
    {
        let r = [
            self.channels[0].path.as_str(),
            self.channels[1].path.as_str(),
            self.channels[2].path.as_str(),
        ];
        assert(r@.map_values(|s: &str| s@) =~= self@.map_values(|c: ChannelView| c.path));
        r
    }

    /// The hardware report as JSON: the channel directories and their largest
    /// brightness values.
    pub fn hardware_json(&self) -> (r: String)
        ensures
            r@ == hardware_json_text(self@),
    {
        let mut out = string_of("{\n  \"supported\": true,\n  \"red\": \"");
        push_str(&mut out, self.channels[0].path.as_str());
        push_str(&mut out, "\",\n  \"green\": \"");
        push_str(&mut out, self.channels[1].path.as_str());
        push_str(&mut out, "\",\n  \"blue\": \"");
        push_str(&mut out, self.channels[2].path.as_str());
        push_str(&mut out, "\",\n  \"max_brightness\": {\"red\": ");
        push_u32(&mut out, self.channels[0].max_brightness);
        push_str(&mut out, ", \"green\": ");
        push_u32(&mut out, self.channels[1].max_brightness);
        push_str(&mut out, ", \"blue\": ");
        push_u32(&mut out, self.channels[2].max_brightness);
        push_str(&mut out, "}\n}");
        out
    }

    /// The status report as JSON: the configuration and `values`, the
    /// brightness values read from the red, green and blue channels.
    pub fn status_json(&self, config: &Config, values: [u32; 3]) -> (r: String)
        ensures
            r@ == status_json_text(*config, values@),
    {
        let mut out = string_of("{\n  \"configured\": {\"enabled\": ");
        push_bool(&mut out, config.enabled);
        push_str(&mut out, ", \"color\": \"");
        let hex = config.color.to_hex();
        push_str(&mut out, hex.as_str());
        push_str(&mut out, "\", \"brightness\": ");
        push_u8(&mut out, config.brightness);
        push_str(&mut out, "},\n  \"mode\": \"");
        push_str(&mut out, config.mode.as_str());
        push_str(&mut out, "\",\n  \"interface\": \"");
        push_str(&mut out, config.interface.as_str());
        push_str(&mut out, "\",\n  \"icmp\": {\"enabled\": ");
        push_bool(&mut out, config.icmp.enabled);
        push_str(&mut out, ", \"target\": \"");
        push_str(&mut out, config.icmp.target.as_str());
        push_str(&mut out, "\", \"failure_mode\": \"");
        push_str(&mut out, config.icmp.failure.mode.as_str());
        push_str(&mut out, "\", \"retries\": ");
        push_u32(&mut out, config.icmp.retries);
        push_str(&mut out, ", \"restore\": ");
        push_u32(&mut out, config.icmp.restore);
        push_str(&mut out, "},\n  \"hardware\": {\"red\": ");
        push_u32(&mut out, values[0]);
        push_str(&mut out, ", \"green\": ");
        push_u32(&mut out, values[1]);
        push_str(&mut out, ", \"blue\": ");
        push_u32(&mut out, values[2]);
        push_str(&mut out, "}\n}");
        out
    }
}

} // verus!

verus! {

/// The whole range of a channel is used: channel value 0 writes 0, channel
/// value 255 writes the channel's largest brightness, and a larger channel
/// value never writes less.
pub proof fn lemma_level_range(low: u8, high: u8, max: u32)
    requires
        low <= high,
    ensures
        channel_level(0, max) == 0,
        channel_level(255, max) == max,
        channel_level(low, max) <= channel_level(high, max),
        channel_level(high, max) <= max,
{
    assert(low * max <= high * max) by (nonlinear_arith)
        requires
            low <= high,
    ;
    assert(high * max <= 255 * max) by (nonlinear_arith)
        requires
            high <= 255,
    ;
}

/// Turning the LED off (black at brightness 0, as a disabled configuration
/// does) writes 0 to every channel, whatever its range.
pub proof fn lemma_off_is_dark(c: Color, max: u32)
    ensures
        channel_level(scaled_color(c, 0).red, max) == 0,
        channel_level(scaled_color(c, 0).green, max) == 0,
        channel_level(scaled_color(c, 0).blue, max) == 0,
{
}

} // verus!

verus! {

/// A channel value is mapped onto a channel's range in proportion, rounded
/// to nearest: the level `r` written for the 8-bit value `value` on a
/// channel whose largest brightness is `max` satisfies
/// `-128 < 255 r - value * max <= 127`.
pub proof fn lemma_level_rounds_to_nearest(value: u8, max: u32)
    ensures
        -128 < 255 * channel_level(value, max) - value * max <= 127,
{
    assert(value * max >= 0) by (nonlinear_arith)
        requires
            value >= 0,
            max >= 0,
    ;
}

} // verus!
