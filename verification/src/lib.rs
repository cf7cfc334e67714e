//! Verified core of the QxChat desktop client: Tor connectivity, geo-location,
//! the relay directory, native permissions and system-audio plumbing.

pub mod text;
pub mod json;
pub mod tor;
pub mod permissions;
pub mod screen_audio;
pub mod tray;
