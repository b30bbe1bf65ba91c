//! Verified core of a binding to the sigrok signal-analysis library:
//! status codes, configuration values, device bookkeeping and data packets.

pub mod config_option;
pub mod device;
pub mod driver;
pub mod input_module;
pub mod packets;
pub mod report;
pub mod text;
pub mod types;
pub mod utils;
pub mod version;

use vstd::prelude::*;

verus! {
} // verus!
