//! Core logic of a terminal client for the Linear issue tracker: data model,
//! configuration resolution, fuzzy filtering, markdown rendering, timeline
//! merging and the application state machine.

pub mod api;
pub mod app;
pub mod cache;
pub mod config;
pub mod dates;
pub mod fuzzy;
pub mod keys;
pub mod markdown;
pub mod styled;
pub mod text;
pub mod timeline;
pub mod types;
pub mod view;
