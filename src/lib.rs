//! Catalog browser for an icon index: fuzzy ranking, collection caching,
//! debounced and id-tagged background queries, and the popup state machine
//! that ties them together.

pub mod app_state;
pub mod browser;
pub mod catalog;
pub mod config;
pub mod debounce;
pub mod links;
pub mod popup;
pub mod ranker;
pub mod text;
pub mod utils;
pub mod viewer;
