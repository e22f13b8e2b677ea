//! A small message board: submission decoding decisions, upload planning,
//! feed ordering and HTML rendering, each with a verified contract.

pub mod text;
pub mod error;
pub mod media;
pub mod post;
pub mod render;
pub mod ingest;
pub mod laws;
pub mod safety;
