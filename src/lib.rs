//! Configuration-driven backup engine: path resolution, credentials,
//! per-machine lineage tracking, archive and retention jobs, and the
//! sequencing of a whole run.

pub mod error;
pub mod text;
pub mod config;
pub mod credentials;
pub mod input;
pub mod args;
pub mod restic;
pub mod lineage;
pub mod archive;
pub mod jobs;
pub mod run;
pub mod notify;
pub mod rsync;
pub mod cron;
