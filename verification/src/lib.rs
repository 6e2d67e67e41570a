//! The core of a small content-management service: the rules that keep a
//! catalog of image records and a directory of image files consistent, and
//! the lifecycle of the sessions that guard them.

pub mod cli;
pub mod commands;
pub mod config;
pub mod consistency;
pub mod database;
pub mod files;
pub mod handlers;
pub mod media;
pub mod middleware;
pub mod models;
pub mod session;
pub mod text;
