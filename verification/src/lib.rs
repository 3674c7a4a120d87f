//! A local vocabulary notebook: word cards with their source URL, a familiarity
//! status and dictionary data, kept in a SQLite database.
pub mod text;
pub mod parts;
pub mod model;
pub mod clock;
pub mod store;
pub mod validation;
pub mod pronunciation;
pub mod json;
pub mod statements;
pub mod repository;
pub mod storage;
pub mod ui;
