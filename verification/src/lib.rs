//! Core of a forms/surveys backend: answer validation against typed
//! questions, form access policy, a broadcast hub for live response
//! streams, and the per-connection stream session state machine.

pub mod account;
pub mod auth_token;
pub mod chart;
mod clock;
pub mod error;
pub mod form;
pub mod hub;
pub mod ids;
pub mod response;
pub mod session;
pub mod template;
pub mod text;
pub mod validate;
