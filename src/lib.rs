//! Configuration lifecycle for a chat client: directory provisioning, theme
//! seeding, load / validate / repair of the configuration file, and backup
//! retention. The library decides; the host performs each filesystem step
//! that the decision names and reports the outcome back.
pub mod config;
pub mod paths;
pub mod retention;
pub mod manager;
pub mod laws;
