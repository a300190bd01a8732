//! Data points, Tuya style: their types, the manager of their values, and
//! their JSON form.

pub mod types;
pub mod manager;
pub mod codec;
