pub mod error;
pub mod models;
pub mod services;
pub mod text;

pub use error::Error;
