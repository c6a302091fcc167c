//! Print back end for a desktop application: the page geometry, the HTML
//! documents handed to the renderer, the parsing of the system's printer list,
//! the print commands and the workflow that ties them together.
//!
//! Everything here computes on plain values. Running processes, driving the
//! browser and touching the file system are left to the caller, which follows
//! the actions that [`job::Job`] hands out.

pub mod decimal;
pub mod dispatch;
pub mod html;
pub mod job;
pub mod models;
pub mod printers;
pub mod render;
pub mod text;
