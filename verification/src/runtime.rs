//! The decisions of the LED loop: which behavior is active, the color of
//! each frame, and when a frame has to be written. The loop itself, the clock
//! and the reads of network state are done by the caller.

use vstd::prelude::*;

use crate::color::{brightness_range_message, scale_channel, scaled_color, Color};
use crate::config::{BehaviorConfig, BehaviorConfigView, Config};
use crate::effects::{heartbeat_level, heartbeat_spec, rainbow_base, rainbow_color};
use crate::error::{fails_config, fails_invalid_input, Error};
use crate::icmp::{probe_step, FailoverState, IcmpState};
use crate::mode::{spec_is_dynamic, spec_uses_network, Mode};
use crate::text::string_of;

verus! {

/// A reading of the monitored network interface taken for one frame.
#[derive(Clone, Copy, Debug, PartialEq, Eq)]
pub enum NetworkSample {
    /// No interface is monitored.
    Unmonitored,
    /// The receive and transmit byte counters of the interface.
    Counters(u64, u64),
    /// Whether the interface is up.
    Link(bool),
}

/// What has to be read from the network interface before a frame.
#[derive(Clone, Copy, Debug, PartialEq, Eq)]
pub enum SampleNeed {
    Nothing,
    Counters,
    Link,
}

/// The color all channels off.
pub open spec fn black() -> Color {
    Color { red: 0, green: 0, blue: 0 }
}

/// An effect color scaled by `percent`: the color when `percent` is at most
/// 100, else the brightness error.
pub open spec fn scaled_outcome(r: Result<Color, Error>, c: Color, percent: u8) -> bool {
    &&& percent <= 100 ==> r == Ok::<Color, Error>(scaled_color(c, percent))
    &&& percent > 100 ==> fails_invalid_input(r, brightness_range_message())
}

/// A behavior with the state its frames depend on.
pub struct BehaviorRuntime {
    enabled: bool,
    behavior: BehaviorConfig,
    previous_counters: Option<(u64, u64)>,
}

/// What a [`BehaviorRuntime`] holds.
pub struct BehaviorRuntimeView {
    pub enabled: bool,
    pub behavior: BehaviorConfigView,
    pub previous_counters: Option<(u64, u64)>,
}

impl View for BehaviorRuntime {
    type V = BehaviorRuntimeView;

    closed spec fn view(&self) -> BehaviorRuntimeView {
        BehaviorRuntimeView {
            enabled: self.enabled,
            behavior: self.behavior@,
            previous_counters: self.previous_counters,
        }
    }
}

impl BehaviorRuntime {
    /// Whether a behavior follows a network interface (and so needs one).
    pub fn monitors_network(enabled: bool, behavior: &BehaviorConfig) -> (r: bool)
        ensures
            r == (enabled && spec_uses_network(behavior.mode)),
    {
        enabled && behavior.mode.uses_network()
    }

    /// Whether a behavior starts from the interface's byte counters.
    pub fn needs_initial_counters(enabled: bool, behavior: &BehaviorConfig) -> (r: bool)
        ensures
            r == (enabled && behavior.mode == Mode::NetworkActivity),
    {
        enabled && behavior.mode == Mode::NetworkActivity
    }

    /// The runtime of a behavior; `initial_counters` are the interface's
    /// byte counters when the behavior starts from them.
    pub fn new(
        enabled: bool,
        behavior: &BehaviorConfig,
        initial_counters: Option<(u64, u64)>,
    ) -> (r: Self)
        ensures
            r@ == (BehaviorRuntimeView {
                enabled,
                behavior: behavior@,
                previous_counters: if enabled && behavior.mode == Mode::NetworkActivity {
                    initial_counters
                } else {
                    None
                },
            }),
    {
        let previous_counters = if enabled && behavior.mode == Mode::NetworkActivity {
            initial_counters
        } else {
            None
        };
        BehaviorRuntime {
            enabled,
            behavior: BehaviorConfig {
                mode: behavior.mode,
                color: behavior.color,
                brightness: behavior.brightness,
                interface: behavior.interface.clone(),
            },
            previous_counters,
        }
    }

    /// What the next frame needs to read from the network interface.
    pub fn sample_need(&self) -> (r: SampleNeed)
        ensures
            r == (if !self@.enabled {
                SampleNeed::Nothing
            } else if self@.behavior.mode == Mode::NetworkActivity {
                SampleNeed::Counters
            } else if self@.behavior.mode == Mode::NetworkHeartbeat {
                SampleNeed::Link
            } else {
                SampleNeed::Nothing
            }),
    {
        if !self.enabled {
            SampleNeed::Nothing
        } else {
            match self.behavior.mode {
                Mode::NetworkActivity => SampleNeed::Counters,
                Mode::NetworkHeartbeat => SampleNeed::Link,
                _ => SampleNeed::Nothing,
            }
        }
    }

    /// The color of the frame at `elapsed_ms` after the behavior started.
    /// `breathing_level` is the breathing level (a percentage) at that time,
    /// and `sample` the reading of the monitored interface. Only the network
    /// activity effect changes the runtime: it remembers the counters.
    pub fn frame(&mut self, elapsed_ms: u64, breathing_level: u8, sample: NetworkSample) -> (r:
        Result<Color, Error>)
        ensures
            ({
                let v = old(self)@;
                let b = v.behavior;
                &&& !v.enabled ==> r == Ok::<Color, Error>(black()) && final(self)@ == v
                &&& v.enabled && b.mode == Mode::Static ==> scaled_outcome(r, b.color, b.brightness)
                    && final(self)@ == v
                &&& v.enabled && b.mode == Mode::Rainbow ==> scaled_outcome(
                    r,
                    rainbow_base(elapsed_ms),
                    b.brightness,
                ) && final(self)@ == v
                &&& v.enabled && b.mode == Mode::Breathing ==> scaled_outcome(
                    r,
                    b.color,
                    scale_channel(b.brightness, breathing_level),
                ) && final(self)@ == v
                &&& v.enabled && b.mode == Mode::NetworkActivity ==> match sample {
                    NetworkSample::Counters(rx, tx) => {
                        let active = v.previous_counters matches Some(p) && p != (rx, tx);
                        &&& scaled_outcome(
                            r,
                            b.color,
                            if active {
                                b.brightness
                            } else {
                                0
                            },
                        )
                        &&& final(self)@ == BehaviorRuntimeView {
                            previous_counters: Some((rx, tx)),
                            ..v
                        }
                    },
                    _ => fails_config(r, "network activity mode requires an interface"@)
                        && final(self)@ == v,
                }
                &&& v.enabled && b.mode == Mode::NetworkHeartbeat ==> match sample {
                    NetworkSample::Link(up) => scaled_outcome(
                        r,
                        b.color,
                        scale_channel(
                            b.brightness,
                            if up {
                                heartbeat_spec(elapsed_ms) as u8
                            } else {
                                0
                            },
                        ),
                    ) && final(self)@ == v,
                    _ => fails_config(r, "network heartbeat mode requires an interface"@)
                        && final(self)@ == v,
                }
            }),
    {
        if !self.enabled {
            return Ok(Color { red: 0, green: 0, blue: 0 });
        }
        match self.behavior.mode {
            Mode::Static => self.behavior.color.scaled(self.behavior.brightness),
            Mode::Rainbow => rainbow_color(elapsed_ms, self.behavior.brightness),
            Mode::Breathing => self.behavior.color.scaled(
                crate::color::effect_brightness(self.behavior.brightness, breathing_level),
            ),
            Mode::NetworkActivity => {
                match sample {
                    NetworkSample::Counters(rx, tx) => {
                        let has_activity = match self.previous_counters {
                            Some((prx, ptx)) => prx != rx || ptx != tx,
                            None => false,
                        };
                        self.previous_counters = Some((rx, tx));
                        self.behavior.color.scaled(
                            if has_activity {
                                self.behavior.brightness
                            } else {
                                0
                            },
                        )
                    },
                    _ => Err(
                        Error::Config(string_of("network activity mode requires an interface")),
                    ),
                }
            },
            Mode::NetworkHeartbeat => {
                match sample {
                    NetworkSample::Link(up) => {
                        let level = if up {
                            heartbeat_level(elapsed_ms)
                        } else {
                            0
                        };
                        self.behavior.color.scaled(
                            crate::color::effect_brightness(self.behavior.brightness, level),
                        )
                    },
                    _ => Err(
                        Error::Config(string_of("network heartbeat mode requires an interface")),
                    ),
                }
            },
        }
    }

    /// The time between frames: 100 ms for the network effects, else 50 ms.
    pub fn frame_interval_ms(&self) -> (r: u64)
        ensures
            r == (if spec_uses_network(self@.behavior.mode) {
                100u64
            } else {
                50u64
            }),
    {
        match self.behavior.mode {
            Mode::NetworkActivity | Mode::NetworkHeartbeat => 100,
            _ => 50,
        }
    }
}

impl Config {
    /// Whether the LED is driven continuously: ICMP failover is on, or the
    /// LED is on with a changing effect. Otherwise the configuration is
    /// applied once.
    pub fn runs_continuously(&self) -> (r: bool)
        ensures
            r == (self.icmp.enabled || (self.enabled && spec_is_dynamic(self.mode))),
    {
        self.icmp.enabled || (self.enabled && self.mode.is_dynamic())
    }

    /// The color and brightness that applying the configuration once sets:
    /// the configured ones when the LED is on, else all channels off.
    pub fn applied_color(&self) -> (r: (Color, u8))
        ensures
            r == (if self.enabled {
                (self.color, self.brightness)
            } else {
                (black(), 0u8)
            }),
    {
        if self.enabled {
            (self.color, self.brightness)
        } else {
            (Color { red: 0, green: 0, blue: 0 }, 0)
        }
    }

    /// The behavior to drive while the ICMP target is failed (`true`) or
    /// not: whether it is on, and the behavior. The LED is on only when the
    /// configuration enables it; a disabled LED stays dark even on failure.
    pub fn behavior_for(&self, failed: bool) -> (r: (bool, BehaviorConfig))
        ensures
            r.0 == self.enabled,
            failed ==> r.1@ == self.icmp.failure@,
            !failed ==> r.0 == self.enabled && r.1@ == (BehaviorConfigView {
                mode: self.mode,
                color: self.color,
                brightness: self.brightness,
                interface: self.interface@,
            }),
    {
        if failed {
            let f = &self.icmp.failure;
            (
                self.enabled,
                BehaviorConfig {
                    mode: f.mode,
                    color: f.color,
                    brightness: f.brightness,
                    interface: f.interface.clone(),
                },
            )
        } else {
            (self.enabled, self.normal_behavior())
        }
    }

    /// The interfaces that have to exist for the configured behaviors, in
    /// the order they are checked.
    pub fn monitored_interfaces(&self) -> (r: Vec<String>)
        ensures
            r@.len() == (if spec_uses_network(self.mode) { 1int } else { 0int }) + (if self.icmp.enabled
                && spec_uses_network(self.icmp.failure.mode) {
                1int
            } else {
                0int
            }),
            spec_uses_network(self.mode) ==> r@[0]@ == self.interface@,
            self.icmp.enabled && spec_uses_network(self.icmp.failure.mode) ==> r@.last()@
                == self.icmp.failure.interface@,
    {
        let mut r: Vec<String> = Vec::new();
        if self.mode.uses_network() {
            r.push(self.interface.clone());
        }
        if self.icmp.enabled && self.icmp.failure.mode.uses_network() {
            r.push(self.icmp.failure.interface.clone());
        }
        r
    }
}

/// The state of the LED loop besides the active behavior: the ICMP failover
/// and the last color written.
pub struct Supervisor {
    probes: IcmpState,
    last_color: Option<Color>,
}

impl Supervisor {
    /// The state at the start of the loop: nothing written yet.
    pub fn new(config: &Config) -> (r: Self)
        ensures
            r.failover()@ == (FailoverState {
                enabled: config.icmp.enabled,
                retries: config.icmp.retries,
                restore: config.icmp.restore,
                failed: false,
                failures: 0,
                successes: 0,
            }),
            r.last_written() is None,
    {
        Supervisor { probes: IcmpState::new(&config.icmp), last_color: None }
    }

    /// The failover state.
    pub closed spec fn failover(&self) -> &IcmpState {
        &self.probes
    }

    /// Whether the ICMP target is considered failed.
    pub fn is_failed(&self) -> (r: bool)
        ensures
            r == self.failover()@.failed,
    {
        self.probes.is_failed()
    }

    /// The last color written, if any since the behavior changed.
    pub closed spec fn last_written(&self) -> Option<Color> {
        self.last_color
    }

    /// Applies one probe result. When the failure state flips, returns the
    /// behavior to switch to (the failure behavior on entering it, the
    /// normal one on leaving it), on only when the configuration enables the
    /// LED, and the next frame is always written.
    pub fn probe_result(&mut self, config: &Config, success: bool) -> (r: Option<
        (bool, BehaviorConfig),
    >)
        ensures
            ({
                let (next, report) = probe_step(old(self).failover()@, success);
                &&& final(self).failover()@ == next
                &&& report is None ==> r is None && final(self).last_written()
                    == old(self).last_written()
                &&& report matches Some(failed) ==> {
                    &&& final(self).last_written() is None
                    &&& r matches Some((on, behavior)) && on == config.enabled && (failed
                        ==> behavior@ == config.icmp.failure@) && (!failed ==> behavior@ == (
                    BehaviorConfigView {
                        mode: config.mode,
                        color: config.color,
                        brightness: config.brightness,
                        interface: config.interface@,
                    }))
                }
            }),
    {
        match self.probes.observe(success) {
            Some(failed) => {
                self.last_color = None;
                Some(config.behavior_for(failed))
            },
            None => None,
        }
    }

    /// The color to write for a frame: `None` when it is the color written
    /// last, else the color, which is then remembered.
    pub fn color_to_write(&mut self, color: Color) -> (r: Option<Color>)
        ensures
            old(self).last_written() == Some(color) ==> r is None,
            old(self).last_written() != Some(color) ==> r == Some(color),
            final(self).last_written() == Some(color),
            final(self).failover()@ == old(self).failover()@,
    {
        let same = match self.last_color {
            Some(last) => last == color,
            None => false,
        };
        if same {
            None
        } else {
            self.last_color = Some(color);
            Some(color)
        }
    }
}

} // verus!

verus! {

/// A configuration is driven continuously exactly when ICMP failover is on
/// or the LED is on with any mode but `Static`; otherwise it is applied
/// once. This is the condition `runs_continuously` answers.
pub proof fn lemma_continuous_modes(c: Config)
    ensures
        (c.icmp.enabled || (c.enabled && spec_is_dynamic(c.mode))) == (c.icmp.enabled || (c.enabled
            && c.mode != Mode::Static)),
{
    crate::mode::lemma_mode_kinds();
}

} // verus!
