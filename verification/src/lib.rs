//! Verified core of the Renderd display-streaming viewer and its shared protocol pieces.

pub mod capture;
pub mod cli;
pub mod clock;
pub mod clock_sync;
pub mod control;
pub mod decode;
pub mod decoder;
pub mod error;
pub mod feedback;
pub mod frame_queue;
pub mod keychain;
pub mod net;
pub mod network;
pub mod pairing;
pub mod proto;
pub mod reconnect;
pub mod renderer;
pub mod session;
pub mod text;
pub mod render_backends;
pub mod state;
