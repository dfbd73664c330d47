//! State, routing and page layout of a small single-page application: a
//! panel that loads a remote document, counts how often it asked for it and
//! shows the text that came back.
//!
//! The library decides; it does no outside work. Whoever drives it (a
//! component in the browser, a test) hands it messages and the browser's
//! location, sends the requests it asks for, and turns the tree it draws
//! into elements.
//!
//! - [`model`]: the panel's state, the messages that change it, and the
//!   request that a load asks for.
//! - [`history`]: what holds of the state after any sequence of messages.
//! - [`route`]: the two routes and how a location leads to one.
//! - [`node`]: the page as a tree of elements.
//! - [`page`]: how state and location are laid out on the page.
//! - [`decimal`]: the counter in digits.
//! - [`failure`]: the description of the error of a load that failed.

pub mod decimal;
pub mod failure;
pub mod history;
pub mod model;
pub mod node;
pub mod page;
pub mod route;
