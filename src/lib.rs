//! Planning layer for a coverage-guided fuzzing workflow: build options and
//! their flag form, the compiler and runtime flags derived from them, the
//! commands that drive the fuzz engine, and the triage of new artifacts.

pub mod commands;
pub mod coverage;
pub mod decimal;
pub mod flag_form;
pub mod flag_names;
pub mod flag_parse;
pub mod manifest;
pub mod options;
pub mod pipeline;
pub mod project;
pub mod rustc_version;
pub mod text;
pub mod translate;
pub mod triage;
