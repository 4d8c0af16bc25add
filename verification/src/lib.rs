//! Process-wide diagnostic capture for a DHCPv4 client boundary layer.
//!
//! Every exported operation of the boundary follows one protocol: acquire the
//! shared log sink, mark a window start, run the engine operation, drain every
//! record stamped inside the window into a caller-owned string, and hand the
//! caller a status code together with log and error strings.  This crate holds
//! that protocol — the record buffer, the sink singleton's state, the
//! call-scoped drain, the four-outcome status marshaling, and the checked
//! helpers around the engine's pure entry points — with contracts on each.

pub mod buffer;
pub mod config;
pub mod event;
pub mod lease;
pub mod protocol;
pub mod record;
pub mod sink;
pub mod status;
