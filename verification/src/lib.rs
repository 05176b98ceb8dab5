//! Verified core of a small Bilibili live-streaming companion: the API data
//! model and its response rules, request signing, the cookie-backed session
//! helpers, and the state machines behind the login page, the room editor and
//! the broadcast panel.

pub mod app_event;
pub mod bili_api;
pub mod broadcast_panel;
pub mod cookies;
pub mod login_page;
pub mod qr;
pub mod room_editor;
pub mod signing;
pub mod text;
