//! Turns a declarative project manifest into Gradle build scripts and plans
//! the steps needed to run the Gradle wrapper against the generated project.

pub mod archive;
pub mod bootstrap;
pub mod cli;
pub mod document;
pub mod manifest;
pub mod orchestrator;
pub mod parse;
pub mod scope;
pub mod script;
pub mod settings;
pub mod text;
