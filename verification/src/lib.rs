//! Client-side core for a multiplayer game's streaming event feed and its
//! companion lookup service: splitting raw frames into candidate JSON
//! messages, classifying them against the closed set of known shapes,
//! dispatching to registered listeners, and memoizing identifier lookups.

pub mod census;
pub mod character;
pub mod client;
pub mod data;
pub mod events;
pub mod experience;
pub mod fire_mode;
pub mod frames;
pub mod json;
pub mod loadout;
pub mod message;
pub mod text;
pub mod vehicle;
