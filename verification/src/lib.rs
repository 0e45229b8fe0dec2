//! Verified logic of a Windows power plan manager.
pub mod actions;
pub mod command_laws;
pub mod commands;
pub mod default_laws;
pub mod descriptions;
pub mod duplicates;
pub mod file_names;
pub mod fpsheaven;
pub mod fpsheaven_laws;
pub mod guid;
pub mod load;
pub mod load_laws;
pub mod manager;
pub mod manager_laws;
pub mod model;
pub mod outcomes;
pub mod paths;
pub mod plan_laws;
pub mod plans;
pub mod regexes;
pub mod restore;
pub mod restore_laws;
pub mod status;
pub mod steps;
pub mod text;
pub mod text_laws;
pub mod window_laws;
