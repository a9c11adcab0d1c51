//! Shared window data model: the records every backend produces.

pub mod icon_info;
pub mod process_info;
pub mod usage_info;
pub mod window_info;
pub mod window_position;
