//! Hard deletion of rooms through the administration API of a Synapse
//! homeserver: which endpoint to try, how to follow the purge, and how to
//! confirm that the room is gone.

pub mod delete_status;
pub mod encoding;
pub mod errors;
pub mod health;
pub mod json;
pub mod laws;
pub mod orchestrator;
pub mod request;
pub mod shell;
pub mod status;
pub mod text;
pub mod verdict;
