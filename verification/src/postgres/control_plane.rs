pub mod model;
pub mod repo;
