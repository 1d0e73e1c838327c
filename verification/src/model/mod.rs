//! The records of the service: projects, and tasks with their due dates.

pub mod laws;
pub mod project;
pub mod task;
