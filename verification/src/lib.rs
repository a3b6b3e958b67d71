//! The rules of a small blogging backend: signed identity tokens, the guard
//! that lets in requests carrying one, the normalisation and planning of
//! paginated list queries, and what each endpoint replies.

pub mod accounts;
pub mod api_response;
pub mod auth;
pub mod calendar;
pub mod config;
pub mod engine;
pub mod files;
pub mod home;
pub mod jwt;
pub mod listing;
pub mod posts;
pub mod text;
pub mod users;
pub mod websocket;
