//! Verified core of a user-mode anti-cheat agent: the encrypted heartbeat
//! session with its replay window, the byte formats it puts on the wire,
//! the request format of the kernel driver bridge, the JVM integrity rules,
//! the classification of executable memory regions and the agent's
//! escalation policy for driver integrity failures.

pub mod agent;
pub mod driver_comm;
pub mod jvm_integrity;
pub mod primitives;
pub mod secure_session;
pub mod vad_scanner;
pub mod wire;
