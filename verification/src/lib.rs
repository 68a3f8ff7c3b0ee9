//! Supported payment networks, their textual identifiers, and the statically
//! known USDC deployment on each of them.

pub mod network;
pub mod text;
pub mod types;
pub mod usdc;
