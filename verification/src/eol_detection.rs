//! Per-vendor version parsing and end-of-life detection.

pub mod centos;
pub mod common;
pub mod redhat;
pub mod ubuntu;
pub mod windows;
