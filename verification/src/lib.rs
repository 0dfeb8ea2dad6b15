//! Panic and symbolication core for a bare-metal kernel.
//!
//! Two coupled components:
//!
//! - The panic controller (`panic_wait`): the single terminal handler for
//!   fatal kernel conditions.  It owns the reentrancy state, renders the
//!   diagnostic record, and selects the exit strategy.  Masking interrupts,
//!   writing to the fail-safe output channel and actually halting or
//!   signalling the host are hardware actions performed by the surrounding
//!   binary; this crate decides what is printed and which terminal action
//!   runs, and proves those decisions correct.
//! - The debug symbol table (`symbols`): a read-only table mapping address
//!   ranges to names, queried through `lookup_symbol`.
//!
//! `driver` models the board's device-driver manager, and `textfmt` holds
//! the verified decimal formatting used by the diagnostic record.

pub mod driver;
pub mod memory;
pub mod panic_wait;
pub mod symbols;
pub mod textfmt;
