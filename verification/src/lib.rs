pub mod config;
pub mod engine;
pub mod history;
pub mod paths;
pub mod resources;
pub mod run;
pub mod session;
pub mod text;
