//! State and rules of a terminal dashboard for a local nginx service:
//! tabs, list cursors, key dispatch, the frame to draw, and the reading of
//! what `systemctl` and `nginx` print.

pub mod app;
pub mod cursor;
pub mod decimal;
pub mod gateway;
pub mod handler;
pub mod logs;
pub mod status;
pub mod systemctl;
pub mod tabs;
pub mod ui;
pub mod version;
