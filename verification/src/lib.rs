pub mod command;
pub mod laws;
pub mod launch;
pub mod sys;
