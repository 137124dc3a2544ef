//! Planning and command-line logic of the company CI tool.
pub mod cli;
pub mod container_engine;
pub mod env_snapshot;
pub mod error;
pub mod image_config;
pub mod repo_layout;
pub mod text;
pub mod ordered_set;
pub mod impact;
pub mod context;
pub mod openshift_config;
pub mod requirements;
pub mod plan;
pub mod runner;
pub mod component_plans;
pub mod image_plans;
pub mod openshift_plans;
pub mod publish_plans;
pub mod commands;
