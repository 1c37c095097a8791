//! Game logic of a small networked 2D fighting game: animation playback, the
//! character controller, the server's client-state table and the client's
//! interpolation of remote players.
pub mod animation;
pub mod constants;
pub mod wire;
pub mod server;
pub mod client;
pub mod character;
pub mod menu;
