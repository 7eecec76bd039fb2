//! Port allocation and the port query interface.
//!
//! The allocator scans a bounded range of local TCP ports in ascending order
//! and picks the first one that is not occupied. Whether a given port is
//! occupied is discovered by the caller (by attempting to bind a listener on
//! loopback) and handed in as plain data, so the scan itself is verified:
//! the result is exactly the first free port of the range, or
//! `NoPortAvailable` when every port in the range is occupied.

use vstd::prelude::*;
use crate::StartupError;

verus! {

/// First port of the range the shell allocates from (inclusive).
pub const PORT_RANGE_START: u16 = 40000;

/// End of the range the shell allocates from (exclusive).
pub const PORT_RANGE_END: u16 = 65535;

/// True when every port of the range described by `occupied` is taken.
pub open spec fn all_occupied(occupied: Seq<bool>) -> bool {
    forall|i: int| 0 <= i < occupied.len() ==> occupied[i]
}

/// True when `port` is the first free port of the range starting at
/// `range_start` whose occupancy is described by `occupied`:
/// it lies in the range, it is free, and every port before it is occupied.
pub open spec fn is_first_free(range_start: u16, occupied: Seq<bool>, port: u16) -> bool {
    &&& range_start <= port < range_start + occupied.len()
    &&& !occupied[port - range_start]
    &&& forall|j: int| 0 <= j < port - range_start ==> occupied[j]
}

/// Scans the ports `range_start..range_end` in ascending order and returns
/// the first one that is free; fails with `NoPortAvailable` when every port
/// of the range is occupied. `occupied[i]` reports whether port
/// `range_start + i` is taken.
pub fn allocate_port(range_start: u16, range_end: u16, occupied: &Vec<bool>) -> (r: Result<
    u16,
    StartupError,
>)
    requires
        range_start <= range_end,
        occupied@.len() == range_end - range_start,
    ensures
        r matches Ok(port) ==> is_first_free(range_start, occupied@, port),
        r matches Err(e) ==> e == StartupError::NoPortAvailable && all_occupied(occupied@),
{
    let mut k: usize = 0;
    let n: usize = occupied.len();
    while k < n
        invariant
            n == occupied@.len(),
            occupied@.len() == range_end - range_start,
            range_start <= range_end,
            0 <= k <= n,
            forall|j: int| 0 <= j < k ==> occupied@[j],
        decreases n - k,
    {
        if !occupied[k] {
            let port: u16 = range_start + (k as u16);
            return Ok(port);
        }
        k = k + 1;
    }
    Err(StartupError::NoPortAvailable)
}

/// Gets an unused port from the shell's fixed range, scanning upward from
/// `PORT_RANGE_START`; `None` when every port of the range is occupied.
/// `occupied[i]` reports whether port `PORT_RANGE_START + i` is taken.
pub fn get_available_port(occupied: &Vec<bool>) -> (r: Option<u16>)
    requires
        occupied@.len() == PORT_RANGE_END - PORT_RANGE_START,
    ensures
        r matches Some(port) ==> is_first_free(PORT_RANGE_START, occupied@, port),
        r matches Some(port) ==> PORT_RANGE_START <= port < PORT_RANGE_END,
        r is None ==> all_occupied(occupied@),
{
    match allocate_port(PORT_RANGE_START, PORT_RANGE_END, occupied) {
        Ok(port) => Some(port),
        Err(_) => None,
    }
}

/// One-shot cell holding the port allocated for the backend. It starts at
/// the sentinel `0` (meaning "not yet allocated"), is written exactly once,
/// and is read by the supervisor and by the UI layer.
pub struct PortCell {
    port: u16,
}

impl PortCell {
    /// The port held by the cell; `0` until one has been allocated.
    pub closed spec fn spec_port(self) -> u16 {
        self.port
    }

    /// A fresh cell, holding the sentinel `0`.
    pub fn new() -> (c: PortCell)
        ensures
            c.spec_port() == 0,
    {
        PortCell { port: 0 }
    }

    /// Records the allocated port. Write-once: the cell must still hold the
    /// sentinel, and the recorded port must not be the sentinel itself.
    pub fn set(&mut self, port: u16)
        requires
            old(self).spec_port() == 0,
            port != 0,
        ensures
            final(self).spec_port() == port,
    {
        self.port = port;
    }

    /// Read-only accessor answering the UI layer: the allocated port, or `0`
    /// when allocation has not happened yet.
    pub fn get_allocated_port(&self) -> (p: u16)
        ensures
            p == self.spec_port(),
    {
        self.port
    }
}

/// The query the UI layer invokes to learn which port the backend listens
/// on; `0` means "not yet allocated".
pub fn get_eval_engine_server_port(cell: &PortCell) -> (p: u16)
    ensures
        p == cell.spec_port(),
{
    cell.get_allocated_port()
}

} // verus!
