pub mod config;
pub mod history;
pub mod report;
pub mod scoring;
pub mod text;
pub mod types;
