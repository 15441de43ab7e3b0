//! Verified core of the termwave terminal audio visualizer: the decisions,
//! layouts and data movement that sit between audio capture, DSP and the
//! terminal.

pub mod modes;
pub mod bins;
pub mod ring;
pub mod keys;
pub mod settings;
pub mod menu;
pub mod capture;
pub mod controls;
pub mod config;
pub mod theme;
pub mod layout;
