//! Decision logic of a per-project container environment manager: the registry
//! of environments, the rendering of build definitions, the container lifecycle,
//! command execution with shell fallback, and the interactive session.

pub mod text;
pub mod registry;
pub mod dockerfile;
pub mod lifecycle;
pub mod paths;
pub mod detect;
pub mod config;
pub mod start;
pub mod exec;
pub mod attach;
pub mod cli;
pub mod container;
pub mod image;
pub mod docker_cli;
pub mod commands;
pub mod settings;
pub mod ignore;
