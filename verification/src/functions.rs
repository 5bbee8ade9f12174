//! The commands of the catalog, by domain.

pub mod accounts;
pub mod admin;
pub mod cart;
pub mod content;
pub mod money;
pub mod publishing;
pub mod rating;
