//! Request construction and response-URL extraction for a screenshot uploader.

pub mod capture;
pub mod config;
pub mod error;
pub mod headers;
pub mod image;
pub mod json;
pub mod parser;
pub mod text;
pub mod upload;
