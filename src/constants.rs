//! Tuning values of the game, in the library's integer units.
use vstd::prelude::*;

verus! {

/// Running speed, in millipixels per second.
pub const RUN_SPEED: i64 = 300_000;

/// Walking speed, in millipixels per second.
pub const WALK_SPEED: i64 = 150_000;

/// Downward acceleration while airborne, in millipixels per second squared.
pub const GRAVITY: i64 = 800_000;

pub const WINDOW_HEIGHT: i32 = 832;
pub const WINDOW_WIDTH: i32 = 1280;

pub const DEFAULT_PLAYER_WIDTH: i32 = 28;
pub const DEFAULT_PLAYER_HEIGHT: i32 = 93;

/// How often a client sends its own character to the server, in microseconds.
pub const CLIENT_UPDATE_INTERVAL_US: u64 = 10_000;

/// How often the server broadcasts, in microseconds.
pub const SERVER_UPDATE_INTERVAL_US: u64 = 16_000;

/// The netcode protocol identifier that client and server must share.
pub const PROTOCOL_ID: u64 = 7;

} // verus!
