//! Verified decision logic of the MultiTool HelmRelease controller.
pub mod controller;
pub mod text;
pub mod time;
