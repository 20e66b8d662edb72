//! The decisions behind attaching files to a conversation and behind native
//! message notifications.

pub mod activity;
pub mod attaching;
pub mod dimensions;
pub mod echo;
pub mod laws;
pub mod media;
pub mod message;
pub mod notifications;
pub mod paste_preview;
pub mod picked;
pub mod staging;
pub mod text;
