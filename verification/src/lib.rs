pub mod context;
pub mod error;
pub mod filter;
pub mod geometry;
pub mod image;
pub mod layout;
pub mod pixels;
pub mod png;
pub mod registry;
