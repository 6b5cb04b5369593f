//! Verified core of the desktop agenda: event model, Google Calendar request
//! bodies and response interpretation, offline-queue and sync decisions,
//! window geometry and the crash supervisor's restart policy.

pub mod text;
pub mod model;
pub mod json;
pub mod dates;
pub mod event_body;
pub mod event_parse;
pub mod geometry;
pub mod watchdog;
pub mod oauth;
pub mod mutations;
pub mod sync;
pub mod wallpaper;
pub mod autostart;
pub mod app_state;
