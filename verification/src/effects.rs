//! The time-based LED effects: the heartbeat pulse and the rainbow cycle.

use vstd::prelude::*;

use crate::color::{brightness_range_message, scaled_color, Color};
use crate::error::{fails_invalid_input, Error};

verus! {

/// The level of a triangular pulse that starts at `start`, lasts `duration`
/// milliseconds and peaks at `peak` halfway through, at time `phase`.
pub open spec fn pulse_level(phase: nat, start: nat, duration: nat, peak: nat) -> nat {
    if phase < start || phase >= start + duration {
        0
    } else {
        let position = (phase - start) as nat;
        let half = duration / 2;
        let distance = if position <= half {
            position
        } else {
            (duration - position) as nat
        };
        (peak * distance + half / 2) / half
    }
}

/// The heartbeat level (a percentage) at `elapsed_ms`: every two seconds a
/// beat peaking at 100 over the first 240 ms, then one peaking at 70 over
/// 320..540 ms.
pub open spec fn heartbeat_spec(elapsed_ms: u64) -> nat {
    let phase = (elapsed_ms % 2000) as nat;
    let first = pulse_level(phase, 0, 240, 100);
    let second = pulse_level(phase, 320, 220, 70);
    if first >= second {
        first
    } else {
        second
    }
}

/// The unscaled rainbow color at `elapsed_ms`: a six-second cycle through
/// red, yellow, green, cyan, blue and magenta in 1536 steps.
pub open spec fn rainbow_base(elapsed_ms: u64) -> Color {
    let position = (elapsed_ms % 6000) * 1536 / 6000;
    let segment = position / 256;
    let offset = (position % 256) as u8;
    let inverse = (255 - offset) as u8;
    if segment == 0 {
        Color { red: 255, green: offset, blue: 0 }
    } else if segment == 1 {
        Color { red: inverse, green: 255, blue: 0 }
    } else if segment == 2 {
        Color { red: 0, green: 255, blue: offset }
    } else if segment == 3 {
        Color { red: 0, green: inverse, blue: 255 }
    } else if segment == 4 {
        Color { red: offset, green: 0, blue: 255 }
    } else {
        Color { red: 255, green: 0, blue: inverse }
    }
}

proof fn lemma_pulse_bounded(phase: nat, start: nat, duration: nat, peak: nat)
    requires
        duration >= 2,
    ensures
        pulse_level(phase, start, duration, peak) <= peak,
{
    if !(phase < start || phase >= start + duration) {
        let position = (phase - start) as nat;
        let half = duration / 2;
        let distance = if position <= half {
            position
        } else {
            (duration - position) as nat
        };
        assert(distance <= half);
        assert((peak * distance + half / 2) / half <= peak) by (nonlinear_arith)
            requires
                distance <= half,
                half >= 1,
        {
            assert(peak * distance <= peak * half);
            assert(peak * distance + half / 2 < peak * half + half);
            assert(peak * half + half == (peak + 1) * half);
        }
    }
}

/// The level of one pulse, for a pulse of at least two milliseconds.
fn pulse(phase: u64, start: u64, duration: u64, peak: u8) -> (r: u8)
    requires
        2 <= duration <= 1000000,
        start <= 1000000,
    ensures
        r == pulse_level(phase as nat, start as nat, duration as nat, peak as nat),
{
    if phase < start || phase >= start + duration {
        return 0;
    }
    let position = phase - start;
    let half = duration / 2;
    let distance = if position <= half {
        position
    } else {
        duration - position
    };
    proof {
        lemma_pulse_bounded(phase as nat, start as nat, duration as nat, peak as nat);
        assert(peak * distance <= 255 * half) by (nonlinear_arith)
            requires
                distance <= half,
                peak <= 255,
        ;
        assert(255 * half <= 255 * duration) by (nonlinear_arith)
            requires
                half <= duration,
        ;
    }
    let level = ((peak as u64) * distance + half / 2) / half;
    level as u8
}

/// The heartbeat level (a percentage) at `elapsed_ms`.
pub fn heartbeat_level(elapsed_ms: u64) -> (r: u8)
    ensures
        r as nat == heartbeat_spec(elapsed_ms),
        r <= 100,
{
    let phase = elapsed_ms % 2000;
    proof {
        lemma_pulse_bounded(phase as nat, 0, 240, 100);
        lemma_pulse_bounded(phase as nat, 320, 220, 70);
    }
    let first = pulse(phase, 0, 240, 100);
    let second = pulse(phase, 320, 220, 70);
    if first >= second {
        first
    } else {
        second
    }
}

/// The rainbow color at `elapsed_ms`, scaled by the brightness percentage
/// `brightness` (at most 100).
pub fn rainbow_color(elapsed_ms: u64, brightness: u8) -> (r: Result<Color, Error>)
    ensures
        brightness <= 100 ==> r == Ok::<Color, Error>(
            scaled_color(rainbow_base(elapsed_ms), brightness),
        ),
        brightness > 100 ==> fails_invalid_input(r, brightness_range_message()),
{
    let position = ((elapsed_ms % 6000) * 1536 / 6000) as u16;
    let segment = position / 256;
    let offset = (position % 256) as u8;
    let inverse = 255 - offset;
    let color = if segment == 0 {
        Color { red: 255, green: offset, blue: 0 }
    } else if segment == 1 {
        Color { red: inverse, green: 255, blue: 0 }
    } else if segment == 2 {
        Color { red: 0, green: 255, blue: offset }
    } else if segment == 3 {
        Color { red: 0, green: inverse, blue: 255 }
    } else if segment == 4 {
        Color { red: offset, green: 0, blue: 255 }
    } else {
        Color { red: 255, green: 0, blue: inverse }
    };
    assert(color == rainbow_base(elapsed_ms));
    color.scaled(brightness)
}

} // verus!

verus! {

/// The colors of the six corners of the hue cycle.
pub open spec fn hue_corner(k: int) -> Color {
    if k == 0 {
        Color { red: 255, green: 0, blue: 0 }
    } else if k == 1 {
        Color { red: 255, green: 255, blue: 0 }
    } else if k == 2 {
        Color { red: 0, green: 255, blue: 0 }
    } else if k == 3 {
        Color { red: 0, green: 255, blue: 255 }
    } else if k == 4 {
        Color { red: 0, green: 0, blue: 255 }
    } else {
        Color { red: 255, green: 0, blue: 255 }
    }
}

/// Two channel values differ by at most 1.
pub open spec fn close(a: u8, b: u8) -> bool {
    -1 <= a - b <= 1
}

/// Two colors differ by at most 1 in every channel.
pub open spec fn close_colors(a: Color, b: Color) -> bool {
    close(a.red, b.red) && close(a.green, b.green) && close(a.blue, b.blue)
}

/// The rainbow passes through red, yellow, green, cyan, blue and magenta at
/// 0, 1, 2, 3, 4 and 5 seconds into each six-second cycle.
pub proof fn lemma_rainbow_corners(cycle: u64, k: u64)
    requires
        k < 6,
        cycle * 6000 + k * 1000 <= u64::MAX,
    ensures
        rainbow_base((cycle * 6000 + k * 1000) as u64) == hue_corner(k as int),
{
    let e = (cycle * 6000 + k * 1000) as u64;
    assert(e % 6000 == k * 1000) by (nonlinear_arith)
        requires
            e == cycle * 6000 + k * 1000,
            k < 6,
    ;
}

/// The rainbow changes smoothly: from one millisecond to the next, every
/// channel changes by at most 1, across the corners of the cycle and from
/// one cycle to the next.
pub proof fn lemma_rainbow_continuous(e: u64)
    requires
        e < u64::MAX,
    ensures
        close_colors(rainbow_base(e), rainbow_base((e + 1) as u64)),
{
    let x = e % 6000;
    let y = ((e + 1) as u64) % 6000;
    let p = x * 1536 / 6000;
    let q = y * 1536 / 6000;
    if x == 5999 {
        assert(y == 0);
        assert(p == 1535);
        assert(q == 0);
    } else {
        assert(y == x + 1);
        assert(q == p || q == p + 1) by (nonlinear_arith)
            requires
                p == x * 1536 / 6000,
                q == (x + 1) * 1536 / 6000,
                x < 6000,
        {
            assert(x * 1536 <= (x + 1) * 1536);
            assert((x + 1) * 1536 == x * 1536 + 1536);
        }
        assert(p <= 1535 && q <= 1535);
    }
}

} // verus!

verus! {

/// The shape of the heartbeat, every two seconds: off before, between and
/// after the two beats, a first beat peaking at 100 at 120 ms and a second
/// one peaking at 70 at 430 ms, never above 100.
pub proof fn lemma_heartbeat_shape(e: u64)
    ensures
        heartbeat_spec(e) <= 100,
        (240 <= e % 2000 < 320 || e % 2000 >= 540 || e % 2000 == 0) ==> heartbeat_spec(e) == 0,
        e % 2000 == 120 ==> heartbeat_spec(e) == 100,
        e % 2000 == 430 ==> heartbeat_spec(e) == 70,
{
    let phase = (e % 2000) as nat;
    lemma_pulse_bounded(phase, 0, 240, 100);
    lemma_pulse_bounded(phase, 320, 220, 70);
}

/// The heartbeat rises and falls smoothly: from one millisecond to the next
/// its level changes by at most 1.
pub proof fn lemma_heartbeat_continuous(e: u64)
    requires
        e < u64::MAX,
    ensures
        -1 <= heartbeat_spec((e + 1) as u64) - heartbeat_spec(e) <= 1,
{
    let x = (e % 2000) as nat;
    let y = (((e + 1) as u64) % 2000) as nat;
    if x == 1999 {
        assert(y == 0);
    } else {
        assert(y == x + 1);
        lemma_pulse_step(x, 0, 240, 100);
        lemma_pulse_step(x, 320, 220, 70);
        lemma_pulse_bounded(x, 0, 240, 100);
        lemma_pulse_bounded(x, 320, 220, 70);
        lemma_pulse_bounded(x + 1, 0, 240, 100);
        lemma_pulse_bounded(x + 1, 320, 220, 70);
        assert(x < 240 ==> pulse_level(x, 320, 220, 70) == 0);
        assert(x + 1 < 320 ==> pulse_level(x + 1, 320, 220, 70) == 0);
        assert(x >= 240 ==> pulse_level(x, 0, 240, 100) == 0);
    }
}

/// Adding at most `h` to a number raises its quotient by `h` by at most 1.
proof fn lemma_div_step(n: nat, k: nat, h: nat)
    requires
        h >= 1,
        k <= h,
    ensures
        n / h <= (n + k) / h <= n / h + 1,
{
    vstd::arithmetic::div_mod::lemma_div_is_ordered(n as int, (n + k) as int, h as int);
    vstd::arithmetic::div_mod::lemma_div_is_ordered((n + k) as int, (h + n) as int, h as int);
    vstd::arithmetic::div_mod::lemma_div_plus_one(n as int, h as int);
}

/// A pulse whose peak is at most half its length changes by at most 1 per
/// millisecond.
proof fn lemma_pulse_step(phase: nat, start: nat, duration: nat, peak: nat)
    requires
        duration >= 2,
        duration % 2 == 0,
        peak <= duration / 2,
    ensures
        -1 <= pulse_level(phase + 1, start, duration, peak) - pulse_level(
            phase,
            start,
            duration,
            peak,
        ) <= 1,
{
    let half = duration / 2;
    let a = pulse_level(phase, start, duration, peak);
    let b = pulse_level(phase + 1, start, duration, peak);
    if phase + 1 < start || phase >= start + duration {
    } else if phase + 1 == start {
        assert(b == (peak * 0 + half / 2) / half);
        vstd::arithmetic::div_mod::lemma_basic_div((half / 2) as int, half as int);
    } else if phase + 1 == start + duration {
        assert(a == (peak * 1 + half / 2) / half);
        lemma_div_step((half / 2) as nat, peak, half);
        vstd::arithmetic::div_mod::lemma_basic_div((half / 2) as int, half as int);
    } else {
        let pa = (phase - start) as nat;
        let pb = pa + 1;
        let da: nat = if pa <= half {
            pa
        } else {
            (duration - pa) as nat
        };
        let db: nat = if pb <= half {
            pb
        } else {
            (duration - pb) as nat
        };
        assert(db == da + 1 || db + 1 == da || db == da);
        assert(a == (peak * da + half / 2) / half);
        assert(b == (peak * db + half / 2) / half);
        if db == da + 1 {
            assert(peak * db == peak * da + peak) by (nonlinear_arith)
                requires
                    db == da + 1,
            ;
            lemma_div_step((peak * da + half / 2) as nat, peak, half);
        } else if db + 1 == da {
            assert(peak * da == peak * db + peak) by (nonlinear_arith)
                requires
                    da == db + 1,
            ;
            lemma_div_step((peak * db + half / 2) as nat, peak, half);
        }
    }
}

} // verus!
