//! The feed engine of a kiosk dashboard: it decodes published feed values
//! into typed content, keeps the latest entry of each feed, registers new
//! feed keys in a three-panel layout, and resolves theme names.

pub mod content;
pub mod fields;
pub mod json;
pub mod kiosk;
pub mod ledger;
pub mod link;
pub mod lists;
pub mod records;
pub mod store;
pub mod text;
pub mod theme;
