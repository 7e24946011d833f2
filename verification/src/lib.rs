//! Verified core of a terminal client for Jira: key bindings, list cursors,
//! text inputs, focus navigation, and the request texts sent to the Jira API.

pub mod event;
pub mod text;
pub mod config;
pub mod widgets;
pub mod jira;
pub mod markup;
pub mod app;
pub mod activity_manager;
pub mod components;
