//! Usage adapters for AI coding assistants: what each provider's reply,
//! configuration and credentials mean as a usage snapshot.

pub mod clock;
pub mod usage;
pub mod text;
pub mod refresh;
pub mod minimax;
pub mod deepseek;
pub mod opencode;
pub mod muse;
pub mod json;
pub mod credentials;
