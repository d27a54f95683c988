//! Single-active-item audio playback queue for a voice-chat bot.
//!
//! Playback requests from several producers are serialized into at most one
//! concurrently playing item. Two FIFO queues feed a background scheduler: a
//! priority queue of short reactive clips always preempts the general
//! backlog. The scheduler drives an external voice session through
//! join/attach/pause/stop/leave transitions; every decision it takes is made
//! here and verified, while the session itself, the decode processes and all
//! other I/O stay with the caller and are driven by the values these
//! functions return.

pub mod config;
pub mod errors;
pub mod iosplit;
pub mod laws;
pub mod pipeline;
pub mod playcmd;
pub mod queue;
pub mod render;
pub mod request;
pub mod scheduler;
pub mod timeutil;
pub mod util;
pub mod ytdl;
