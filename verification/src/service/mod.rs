//! Rules of the planning service that need no network and no database.

pub mod devices;
pub mod knowledge;
pub mod library;
pub mod models;
pub mod planner;
pub mod projects;
pub mod prompts;
pub mod scraper;
pub mod updates;
