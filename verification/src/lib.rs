//! A command gateway: a fixed catalog of named commands behind one dispatch
//! function, with the reply of every command held in one envelope of a result
//! or an error, never both and never neither.

pub mod adapter;
pub mod config;
pub mod dispatch;
pub mod functions;
pub mod json;
pub mod laws;
pub mod oauth;
pub mod reply;
pub mod text;
