pub mod block;
pub mod context;
pub mod document;
pub mod engine;
pub mod errors;
pub mod matcher;
pub mod pattern;
pub mod render;
