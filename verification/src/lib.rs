//! A small library for browsing web search results in a terminal.
//!
//! One query goes out to a search engine; the returned markup is mined for
//! result records (a link target and a snippet each); the records are then
//! browsed in a keyboard-driven list. The modules hold, in order of data
//! flow: building and classifying the request (`query`), mining the markup
//! (`extract`), the browsing state machine (`browse`), the render plan
//! (`render`), and the session lifecycle (`session`).

pub mod browse;
pub mod extract;
pub mod query;
pub mod render;
pub mod session;
