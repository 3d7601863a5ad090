//! Onyx: the logic of a YouTube downloader front end for yt-dlp.

pub mod text;
pub mod json;
pub mod paths;
pub mod formats;
pub mod download;
pub mod search;
pub mod deps;
pub mod widgets;
pub mod menu;
pub mod options;
pub mod screens;
pub mod config;
pub mod settings;
pub mod session;
pub mod web;
