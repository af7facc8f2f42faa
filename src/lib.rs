//! Task entry for the Acetics task service: the task model, the answers an
//! operator gives, and the decisions that turn those answers into a task.

pub mod acetics;
pub mod clock;
pub mod laws;
pub mod task;
pub mod text;
pub mod workflow;
