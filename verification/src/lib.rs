//! Job planning, reporting and self-upgrade logic of the NodeCook agent.
pub mod archive;
pub mod cli;
pub mod cycle;
pub mod digest;
pub mod flows;
pub mod jobs;
pub mod probe;
pub mod report;
pub mod session;
pub mod text;
pub mod upgrade;
