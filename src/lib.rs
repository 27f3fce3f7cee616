pub mod error;
pub mod laws;
pub mod listing;
pub mod options;
pub mod registry;
pub mod tasks;
pub mod text;
