//! whycant explains, with evidence, why a filesystem operation is denied for
//! a chosen identity. The library evaluates a fixed chain of access-control
//! layers against a snapshot of filesystem facts and folds the per-layer
//! outcomes into one report.

pub mod access_check;
pub mod cli;
pub mod config;
pub mod engine;
pub mod facts;
pub mod fix;
pub mod identity;
pub mod layers;
pub mod op;
pub mod paths;
pub mod render;
pub mod report;
pub mod term;
pub mod text;
