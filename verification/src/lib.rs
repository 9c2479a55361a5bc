//! Identity resolution for management requests of an edge module runtime,
//! together with the data rules of the module dashboard.

pub mod authenticator;
pub mod cluster;
pub mod credential;
pub mod demo_data;
pub mod guarantees;
pub mod health;
pub mod identity;
pub mod logs;
pub mod management;
pub mod modules;
pub mod replies;
pub mod resolver;
pub mod scripted;
