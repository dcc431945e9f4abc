//! Task service core: the entity model, the mapping between tasks and
//! stored items, composite-id parsing, resolver decisions and the error
//! taxonomy of the API.

pub mod errors;
pub mod item;
pub mod models;
pub mod task_id;
pub mod services;
pub mod graph;
pub mod laws;
