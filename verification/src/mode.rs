//! The LED effect modes and their configuration names.

use vstd::prelude::*;

use crate::error::{fails_config, Error};
use crate::text::{push_str, str_equals, string_of};

verus! {

/// How the LED is driven.
#[derive(Clone, Copy, Debug, PartialEq, Eq, Structural)]
pub enum Mode {
    Static,
    Rainbow,
    Breathing,
    NetworkActivity,
    NetworkHeartbeat,
}

/// The configuration name of a mode.
pub open spec fn mode_name(m: Mode) -> Seq<char> {
    match m {
        Mode::Static => "static"@,
        Mode::Rainbow => "rainbow"@,
        Mode::Breathing => "breathing"@,
        Mode::NetworkActivity => "network_activity"@,
        Mode::NetworkHeartbeat => "network_heartbeat"@,
    }
}

/// The mode whose configuration name is `s`, if there is one.
pub open spec fn mode_named(s: Seq<char>) -> Option<Mode> {
    if s == "static"@ {
        Some(Mode::Static)
    } else if s == "rainbow"@ {
        Some(Mode::Rainbow)
    } else if s == "breathing"@ {
        Some(Mode::Breathing)
    } else if s == "network_activity"@ {
        Some(Mode::NetworkActivity)
    } else if s == "network_heartbeat"@ {
        Some(Mode::NetworkHeartbeat)
    } else {
        None
    }
}

/// The message of an unknown mode name `s`.
pub open spec fn unknown_mode_message(s: Seq<char>) -> Seq<char> {
    "mode must be static, rainbow, breathing, network_activity, or network_heartbeat; got "@ + s
}

/// The mode changes the LED over time.
pub open spec fn spec_is_dynamic(m: Mode) -> bool {
    m != Mode::Static
}

/// The mode follows a network interface.
pub open spec fn spec_uses_network(m: Mode) -> bool {
    m == Mode::NetworkActivity || m == Mode::NetworkHeartbeat
}

impl Mode {
    /// Parses a mode from its configuration name.
    pub fn parse(value: &str) -> (r: Result<Self, Error>)
        ensures
            mode_named(value@) matches Some(m) ==> r == Ok::<Mode, Error>(m),
            mode_named(value@) is None ==> fails_config(r, unknown_mode_message(value@)),
    {
        if str_equals(value, "static") {
            Ok(Mode::Static)
        } else if str_equals(value, "rainbow") {
            Ok(Mode::Rainbow)
        } else if str_equals(value, "breathing") {
            Ok(Mode::Breathing)
        } else if str_equals(value, "network_activity") {
            Ok(Mode::NetworkActivity)
        } else if str_equals(value, "network_heartbeat") {
            Ok(Mode::NetworkHeartbeat)
        } else {
            let mut m = string_of(
                "mode must be static, rainbow, breathing, network_activity, or network_heartbeat; got ",
            );
            push_str(&mut m, value);
            Err(Error::Config(m))
        }
    }

    /// The configuration name of the mode.
    pub fn as_str(self) -> (r: &'static str)
        ensures
            r@ == mode_name(self),
    {
        match self {
            Mode::Static => "static",
            Mode::Rainbow => "rainbow",
            Mode::Breathing => "breathing",
            Mode::NetworkActivity => "network_activity",
            Mode::NetworkHeartbeat => "network_heartbeat",
        }
    }

    /// Whether the mode changes the LED over time (every mode but `Static`).
    pub fn is_dynamic(self) -> (r: bool)
        ensures
            r == spec_is_dynamic(self),
    {
        self != Mode::Static
    }

    /// Whether the mode follows a network interface.
    pub fn uses_network(self) -> (r: bool)
        ensures
            r == spec_uses_network(self),
    {
        matches!(self, Mode::NetworkActivity | Mode::NetworkHeartbeat)
    }
}

/// The configuration name of every mode parses back to that mode.
pub proof fn lemma_mode_name_round_trip(m: Mode)
    ensures
        mode_named(mode_name(m)) == Some(m),
{
    reveal_strlit("static");
    reveal_strlit("rainbow");
    reveal_strlit("breathing");
    reveal_strlit("network_activity");
    reveal_strlit("network_heartbeat");
    match m {
        Mode::Static => {},
        Mode::Rainbow => {
            assert("rainbow"@ != "static"@) by {
                assert("rainbow"@[0] != "static"@[0]);
            }
        },
        Mode::Breathing => {
            assert("breathing"@ != "static"@) by {
                assert("breathing"@[0] != "static"@[0]);
            }
            assert("breathing"@ != "rainbow"@) by {
                assert("breathing"@[0] != "rainbow"@[0]);
            }
        },
        Mode::NetworkActivity => {
            assert("network_activity"@ != "static"@) by {
                assert("network_activity"@[0] != "static"@[0]);
            }
            assert("network_activity"@ != "rainbow"@) by {
                assert("network_activity"@[0] != "rainbow"@[0]);
            }
            assert("network_activity"@ != "breathing"@) by {
                assert("network_activity"@[0] != "breathing"@[0]);
            }
        },
        Mode::NetworkHeartbeat => {
            assert("network_heartbeat"@ != "static"@) by {
                assert("network_heartbeat"@[0] != "static"@[0]);
            }
            assert("network_heartbeat"@ != "rainbow"@) by {
                assert("network_heartbeat"@[0] != "rainbow"@[0]);
            }
            assert("network_heartbeat"@ != "breathing"@) by {
                assert("network_heartbeat"@[0] != "breathing"@[0]);
            }
            assert("network_heartbeat"@ != "network_activity"@) by {
                assert("network_heartbeat"@[8] != "network_activity"@[8]);
            }
        },
    }
}

} // verus!

verus! {

/// Every mode but `Static` changes the LED over time, and exactly the two
/// network modes follow an interface.
pub proof fn lemma_mode_kinds()
    ensures
        !spec_is_dynamic(Mode::Static),
        spec_is_dynamic(Mode::Rainbow),
        spec_is_dynamic(Mode::Breathing),
        spec_is_dynamic(Mode::NetworkActivity),
        spec_is_dynamic(Mode::NetworkHeartbeat),
        !spec_uses_network(Mode::Static),
        !spec_uses_network(Mode::Rainbow),
        !spec_uses_network(Mode::Breathing),
        spec_uses_network(Mode::NetworkActivity),
        spec_uses_network(Mode::NetworkHeartbeat),
{
}

} // verus!
