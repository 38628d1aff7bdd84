//! Verified core of a watch-together service: the shared room model, the
//! wire messages, the server's room registry and message relay, the
//! client's room session, and the native plugin's command surface.

pub mod client;
pub mod message;
pub mod model;
pub mod params;
pub mod peer;
pub mod player;
pub mod plugin;
pub mod room;
pub mod server;
pub mod util;
