pub mod errors;
pub mod file;
pub mod platform;
pub mod text;
pub mod interpreter;
pub mod paths;
pub mod script;
pub mod shortcut;
pub mod startup;
pub mod controller;
