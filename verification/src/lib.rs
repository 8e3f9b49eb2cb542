//! `now`: deploy a static site through a provider's own tooling.
//!
//! The library holds what the command line decides: which directory is
//! published, which files are left out, how `.env` files and the JSON
//! configuration are read and written, which provider command runs, and
//! which URL is reported afterwards.
pub mod text;
pub mod paths;
pub mod fs_rules;
pub mod config;
pub mod provider;
pub mod env_file;
pub mod json;
pub mod number;
pub mod azure_blob;
pub mod deploy;
pub mod onboarding;
pub mod cli;
pub mod deploy_flow;
