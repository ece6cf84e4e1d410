//! Controller for anonymity-network tunnels driven through an external
//! router engine: tunnel identities, ephemeral secret staging, tunnel
//! configuration assembly, and the router lifecycle state machine.

pub mod base64;
pub mod error;
pub mod jvm;
pub mod router_wrapper;
pub mod staging;
pub mod text;
pub mod tunnel_control;
