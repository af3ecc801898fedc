//! A small HTTP client whose transfer engine (size probing, segmented range
//! fetching and reassembly) is stated and proved with Verus.
pub mod error;
pub mod text;
pub mod message;
pub mod engine;
pub mod download;
pub mod laws;
pub mod url;
pub mod transport;
pub mod json;
pub mod client;
