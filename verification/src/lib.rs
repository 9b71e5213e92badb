//! Fault-injection-hardened control-flow-integrity (CFI) primitives for a
//! silicon root of trust, together with the value types of its key-vault
//! register block.
//!
//! The `cfi` module holds the optimization barrier, the failure-cause
//! taxonomy with its reported-code mapping, and the dual-evaluated hardened
//! assertion family. The `kv` module holds the bit-field value types through
//! which the key-vault control registers are read and written.

pub mod cfi;
pub mod kv;
