//! The status sources.

pub mod date_time;
pub mod free_disk_space;
pub mod network_interface;
pub mod system_load;
pub mod media_player;
pub mod volume;
