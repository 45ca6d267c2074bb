pub mod action;
pub mod api;
pub mod config;
pub mod model;
pub mod rtm;
pub mod text;
