//! Dotfile rules: how a source path is materialised at a destination, as a
//! symbolic link or as a copy, and the decisions that bring a destination
//! into the state its rule asks for.
//!
//! The library decides and never touches the filesystem. A caller performs
//! what a [`engine::Reconciler`] asks for and hands the answer back.

pub mod args;
pub mod diff;
pub mod engine;
pub mod error;
pub mod home;
pub mod order;
pub mod paths;
pub mod profile;
pub mod rule;
pub mod text;
pub mod world;
