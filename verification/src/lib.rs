//! Session dashboard decisions and Lua tool contexts, with machine-checked contracts.
pub mod channel;
pub mod context;
pub mod dashboard;
pub mod keys;
pub mod laws;
pub mod listing;
pub mod lua_ctx;
pub mod lua_methods;
pub mod openings;
pub mod paths;
pub mod removal;
pub mod sessions;
pub mod task;
