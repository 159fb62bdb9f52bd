pub mod control_plane;
pub mod data_address;
pub mod data_flow;
