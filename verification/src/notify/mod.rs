//! Push notifications: the devices that get them, and what is sent when.

pub mod devices;
pub mod devices_laws;
pub mod sender;
pub mod sender_laws;
