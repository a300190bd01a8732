//! Getting WiFi credentials onto a new device.

pub mod softap_prov;
