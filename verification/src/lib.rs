//! Data-plane SDK core: the control-plane, data-address and data-flow models,
//! the control-plane repositories, and their verified contracts.

pub mod db;
pub mod error;
pub mod model;
pub mod postgres;
