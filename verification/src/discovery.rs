//! Port discovery for running several application instances side by side.
//!
//! The decision logic of the scan is verified here: given the availability of
//! the 100 candidate ports starting at a base port, pick the first available
//! one, falling back to the base port when none is free.  Probing whether a
//! port can actually be bound is outside work that the surrounding
//! application performs; it hands the probe results in as plain booleans.
use vstd::prelude::*;

verus! {

/// How many consecutive ports the scan considers.
pub const PORT_SCAN_RANGE: usize = 100;

/// Finds an available port for the server.
///
/// `available[j]` says whether port `base_port + j` can be bound.  The result
/// is the first port of the range whose probe succeeded, or `base_port`
/// itself when all 100 probes failed (the caller must then handle the
/// conflict at the transport layer).
pub fn find_available_port(base_port: u16, available: &Vec<bool>) -> (port: u16)
    requires
        available@.len() == PORT_SCAN_RANGE,
        base_port + 99 <= u16::MAX,
    ensures
        base_port <= port < base_port + PORT_SCAN_RANGE,
        forall|j: int| 0 <= j < port - base_port ==> !available@[j],
        (exists|j: int| 0 <= j < PORT_SCAN_RANGE && available@[j]) ==> available@[port
            - base_port],
        (forall|j: int| 0 <= j < PORT_SCAN_RANGE ==> !available@[j]) ==> port == base_port,
{
    let mut offset: usize = 0;
    while offset < PORT_SCAN_RANGE
        invariant
            0 <= offset <= PORT_SCAN_RANGE,
            available@.len() == PORT_SCAN_RANGE,
            base_port + 99 <= u16::MAX,
            forall|j: int| 0 <= j < offset ==> !available@[j],
        decreases PORT_SCAN_RANGE - offset,
    {
        if available[offset] {
            return base_port + offset as u16;
        }
        offset += 1;
    }
    base_port
}

} // verus!
