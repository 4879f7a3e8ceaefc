//! The core of a serial port manager: the decisions of a per-port session,
//! the registry of known ports and live sessions, the bookkeeping between
//! the two, and the audit journal, each with a contract that Verus proves.
//!
//! The hardware, the queues and the clock's users live outside this crate.
//! A session is driven by handing it the one thing that became ready
//! ([`session::SessionInput`]); it answers with what is to be done
//! ([`session::SessionAction`]). The bookkeeping ([`relay::relay_action`])
//! turns those actions into registry updates, announcements and drafts for
//! the audit log.

pub mod at;
pub mod audit;
pub mod audit_proofs;
pub mod clock;
pub mod command;
pub mod constants;
pub mod device;
pub mod error;
pub mod escpos;
pub mod events;
pub mod fingerprint;
pub mod ids;
pub mod lifecycle_proofs;
pub mod modbus;
pub mod port;
pub mod registry;
pub mod registry_proofs;
pub mod relay;
pub mod serial;
pub mod session;
pub mod session_proofs;
pub mod setup;
pub mod text;
