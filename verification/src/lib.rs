//! Terminal RSS/Atom feed reader: the verified core.

pub mod text;
pub mod style;
pub mod markdown;
pub mod error;
pub mod storage;
pub mod feed;
pub mod app;
pub mod ui;
pub mod laws;
