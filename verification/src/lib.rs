//! The logic of a terminal client for YouTube live chat.
pub mod instant;
pub mod line;
pub mod login;
pub mod oauth;
pub mod poll;
pub mod redirect;
pub mod screen;
pub mod tail;
pub mod text;
pub mod tui;
pub mod video;
pub mod web;
pub mod youtube;
