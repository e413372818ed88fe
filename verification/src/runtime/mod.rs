pub mod commands;
pub mod main_loop;
pub mod deadline;
pub mod events;
pub mod flags;
pub mod report_runtime;
