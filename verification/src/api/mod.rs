//! Platform clients: what is asked of each usage API and how its replies
//! become usage statistics.

pub mod client;
pub mod kimi_client;
pub mod kimi_types;
pub mod minimax_client;
pub mod minimax_types;
pub mod retry;
pub mod types;
pub mod url;
