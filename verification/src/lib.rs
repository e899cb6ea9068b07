//! Core logic of a small blog site: an immutable in-memory post store,
//! the two data endpoints that read it, decimal id parsing and formatting,
//! URL path matching, and the page-level state machines that turn route
//! and fetch results into rendered pages or categorized errors.

pub mod model;
pub mod store;
pub mod text;
pub mod routing;
pub mod pages;
