//! Steamworks session lifecycle and callback forwarding for a Bevy app: the
//! plugin that owns the SDK session until it is installed once, and the pump
//! that publishes, each tick and in delivery order, what the SDK's callbacks
//! delivered.

mod channel;
pub mod plugin;
pub mod pump;

pub use plugin::{InitError, PluginError, SteamworksPlugin};
pub use pump::{event_channel, forward_events, EventSink, EventSource};
