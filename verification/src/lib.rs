//! Aggregation and reporting of validation failures: located leaf failures,
//! trees of them, and their views as records, JSON text and diagnostic text.
pub mod data;
pub mod error_type;
pub mod failure;
pub mod json;
pub mod kind;
pub mod laws;
pub mod line_error;
pub mod location;
pub mod report;
pub mod text;
pub mod url;
pub mod views;
