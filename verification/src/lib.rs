//! Control of the RGB status LED of a Google Wifi (Gale) router: colors,
//! configuration validation, effect frames, the ICMP failover state and the
//! JSON reports. Reading and writing sysfs, running commands and the clock
//! are left to the caller.

pub mod cli;
pub mod color;
pub mod config;
pub mod effects;
pub mod error;
pub mod hardware;
pub mod icmp;
pub mod mode;
pub mod network;
pub mod runtime;
pub mod text;
pub mod validate;

pub use cli::{parse_brightness_option, parse_component, require_arg_count};
pub use color::{validate_brightness, Color};
pub use config::{BehaviorConfig, Config, IcmpConfig};
pub use effects::{heartbeat_level, rainbow_color};
pub use error::Error;
pub use hardware::{Channel, Hardware};
pub use icmp::IcmpState;
pub use mode::Mode;
pub use network::interfaces_json_from;
pub use runtime::{BehaviorRuntime, NetworkSample, SampleNeed, Supervisor};
pub use validate::{validate_icmp_target, validate_interface_name};
