//! Download-on-demand rclone HTTP sidecar for offline Rust desktop apps.
//!
//! rclone is never bundled. When the user enables cloud sync,
//! [`RcloneEngine::provision`] obtains the official per-OS binary (version-pinned,
//! SHA-256-verified). While the app runs, [`RcloneEngine::start`] runs `rclone rcd` on
//! an ephemeral loopback port. Cloud operations are then available via the rc HTTP API
//! through [`RcloneEngine::rc`].
//!
//! This crate decides and does not act: what touches disk, network and processes is
//! handed out as an action, and what came of it is taken in as an event.
//!
//! ```text
//! NotInstalled -> Downloading{..} -> Installing -> (Error on failure)
//!                                       |
//!                                 [provision ok]
//!                                       |
//!                                    Stopped (ready to start)
//!                                       |
//!                                    start()
//!                                       |
//!                                   Starting -> Ready
//!                                                 |
//!                                               stop()
//!                                                 |
//!                                              Stopped
//! ```
pub mod archive;
pub mod client;
pub mod config;
pub mod digest;
pub mod engine;
pub mod error;
pub mod filter;
pub mod job;
pub mod lifecycle;
pub mod notice;
pub mod path;
pub mod provision;
pub mod state;
pub mod text;
pub mod time;
pub mod wire;

pub use client::{DirectoryItem, RcClient};
pub use config::{EngineConfig, PlatformAsset};
pub use engine::RcloneEngine;
pub use error::Error;
pub use job::{BisyncOutput, JobStatus};
pub use notice::SyncConflict;
pub use state::EngineState;
