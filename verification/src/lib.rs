//! Serves images as a plain pixel array: a short ASCII header with the
//! dimensions, then three bytes for each pixel.

pub mod address;
pub mod decimal;
pub mod error;
pub mod fetch;
pub mod query;
pub mod raster;
pub mod service;
pub mod wire;

pub use crate::error::Error;
pub use crate::query::ImageQuery;
