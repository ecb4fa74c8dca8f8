//! A catalog of dwellings classified by kind: an in-memory store with
//! referential integrity, a validating service over free-text form fields,
//! a renderer for the display lines, and the presenter that dispatches the
//! user's intents — every contract checked by Verus.

pub mod laws;
pub mod models;
pub mod presenter;
pub mod render;
pub mod repository;
pub mod service;
pub mod text;
