//! Historical standings for an annual rowing competition ("eights"), raced in
//! two divisions (men's and women's).
//!
//! The library holds the in-memory data model — colleges, crews, yearly
//! standings — and the query logic that turns a year-indexed list of full
//! standings into the position history of one crew. Loading the source JSON
//! documents and serving the results over HTTP are left to the surrounding
//! application.

pub mod errors;
pub mod model;
pub mod query;
