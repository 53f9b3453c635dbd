pub mod cache_policy;
pub mod errors;
pub mod model;
pub mod object_id;
pub mod orchestrator;
pub mod outcomes;
pub mod settings;
pub mod topology;
pub mod user;
