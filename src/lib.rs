//! Session controller of a terminal movie browser: the filter mini-language of
//! the search box, result pagination, the download-queue mirror and the modal
//! focus state machine that routes key presses between them.
pub mod focus;
pub mod text;
pub mod filter;
pub mod strings;
pub mod downloads;
pub mod movie_table;
pub mod popup;
pub mod input;
pub mod session;
pub mod config;
pub mod archive;
