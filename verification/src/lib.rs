//! Application scaffold for a GPU-backed windowed program: a builder that
//! accumulates window and device configuration, and a verified frame-loop
//! state machine that decides, for each incoming event, which lifecycle
//! actions (update, render, overlay, present, destroy) the host must perform.

pub mod app;
pub mod gpu;
pub mod render;
pub mod runner;
