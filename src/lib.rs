//! Aggregates news from feeds and a vendor API into a deduplicated store,
//! with the state machine of an interactive terminal session over it.

pub mod adaptors;
pub mod config;
pub mod detail_pane;
pub mod feed;
pub mod identity;
pub mod input;
pub mod model;
pub mod news_list;
pub mod search_bar;
pub mod session;
pub mod status;
pub mod store;
pub mod text;
