//! A small client for a webcomic's JSON metadata endpoint: it builds the
//! request URL, turns the response into a presentation record, derives the
//! image's local file name, and renders the record as text or JSON.

pub mod decimal;
pub mod error;
pub mod request;
pub mod json;
pub mod comic;
pub mod image;
pub mod client;
