//! Provisioning of a web-application project inside a container-based
//! development environment: the rules that decide what is run, in which
//! order, and what each outcome means.

pub mod choice;
pub mod command;
pub mod config;
pub mod container;
pub mod error;
pub mod hosts;
pub mod input;
pub mod kebab;
pub mod number;
pub mod patcher;
pub mod pipeline;
pub mod place;
pub mod readiness;
pub mod sequence;
pub mod text;
pub mod vhost;
