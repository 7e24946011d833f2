pub mod issues;
pub mod projects;
pub mod tickets;
pub mod tickets_metadata;
