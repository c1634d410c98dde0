//! The data side of a bridge between a Julia host and the Slint UI toolkit.
//!
//! The host talks to Slint through plain records (`JRvalue`), keeps
//! two-dimensional models of cells for array properties, remembers which
//! list-view properties mirror which cell models, and records the last error
//! that happened. Everything that decides what to store, what to hand back and
//! what to report lives here and is verified; the event loop, the C calling
//! convention and the drawing are left to the host glue.
use vstd::prelude::*;

pub mod cells;
pub mod error_state;
pub mod jrvalue;
pub mod laws;
pub mod registry;
pub mod slint_value;
pub mod text;

verus! {

/// The marker that every well-formed `JRvalue` carries in its `magic` field.
pub const JRMAGIC: i32 = 123456;

/// Returns the marker that a host must put into every `JRvalue` it hands over.
pub fn r_get_magic() -> (m: i32)
    ensures
        m == JRMAGIC,
{
    JRMAGIC
}

/// Stands where a value's type is written to the debug log.
///
/// This library writes no log, so the call has no effect; the host glue
/// writes the type's name itself where it calls this.
pub fn print_type_of<T>(_x: &T) {
}

} // verus!
