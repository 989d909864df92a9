//! Supervisor core for a peer-discovery network node.
//!
//! The library holds the policy and data logic of the supervisor: the
//! trusted-source address filter, the construction of the node's signed
//! record, the translation of engine events into observability records,
//! the fixed response served by the record responder, and the shutdown
//! state machine.  The surrounding process (argument handling, sockets,
//! signal delivery, the discovery engine itself) stays outside and hands
//! the library plain values.

pub mod addr;
pub mod events;
pub mod filter;
pub mod record;
pub mod responder;
pub mod shutdown;
pub mod supervisor;
