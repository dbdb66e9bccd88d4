//! Verified core logic of a terminal and Connect client for a music streaming service.

pub mod protocol;
pub mod transport;
pub mod text;
pub mod focus;
pub mod models;
pub mod downloader;
pub mod about;
pub mod keys;
pub mod tabs;
pub mod overlays;
pub mod screens;
pub mod notifications;
pub mod app;
pub mod connect;
pub mod favorites;
pub mod display;
