//! Keeps a host's update loop ticking while its page is in the background.
//!
//! A worker outside the page's main context sends a heartbeat at a set delay.
//! The scheduler here decides, for each heartbeat, whether the host runs one
//! update. Creating the worker, posting to it and running the host belong to
//! the caller: every function of this crate takes what the caller observed
//! and returns what the caller is to do next.

pub mod background_listener;
pub mod background_timer;
pub mod background_worker;
pub mod error;
pub mod heartbeat;
pub mod message;
pub mod millis;
pub mod protocol;
pub mod settings;

pub use background_listener::{VisibilityChangeListenerPlugin, WindowVisibility};
pub use background_timer::{BackgroundTimer, BackgroundTimerPlugin};
pub use background_worker::WebKeepalivePlugin;
pub use settings::KeepaliveSettings;
