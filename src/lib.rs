//! A platform plugin for a smart-home hub: it decodes its configuration,
//! reports its life cycle through the host's logger and keeps the accessories
//! that the host replays from its cache, in the order they arrive.
pub mod config;
pub mod platform;
