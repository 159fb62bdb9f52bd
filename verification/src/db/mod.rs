pub mod control_plane;
