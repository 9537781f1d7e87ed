//! The cell in which a script or a template leaves the status code that it
//! wants the response to have.

use vstd::prelude::*;
use std::sync::atomic::{AtomicU16, Ordering};
use std::sync::Arc;

verus! {

/// A fresh cell that holds 0: no status code was asked for.
pub fn new_code_cell() -> Arc<AtomicU16> {
    Arc::new(AtomicU16::new(0))
}

/// The status code that the cell holds now. Scripts that share the cell may
/// have stored any value in it.
pub fn load_code(cell: &Arc<AtomicU16>) -> u16 {
    cell.load(Ordering::Relaxed)
}

/// Stores a status code in the cell.
pub fn store_code(cell: &Arc<AtomicU16>, code: u16) {
    cell.store(code, Ordering::Relaxed)
}

} // verus!
