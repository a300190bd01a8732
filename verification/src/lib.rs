//! Verified core of a smart-home relay/switch firmware: the data-point model
//! and manager, the JSON codec over a plain JSON model, the button, LED and
//! relay drivers as state machines over abstract pins, and the decision logic
//! of the network, provisioning and storage layers.

pub mod dp;
pub mod text;
pub mod json;
pub mod drivers;
pub mod config;
pub mod network;
pub mod provisioning;
pub mod storage;
pub mod ota;
pub mod firmware;
