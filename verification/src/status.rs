//! The reply to a status request.

use crate::connections::ConnectionCounters;
use vstd::prelude::*;

verus! {

/// The reply to a status request.
#[derive(Clone, Copy, PartialEq, Eq, Debug)]
pub struct StatusResponse {
    pub status: &'static str,
    pub active_connections: u32,
    pub total_connections: u32,
    pub rejected_connections: u32,
    /// Free heap in bytes; only its low 32 bits are told.
    pub free_heap: u32,
}

impl StatusResponse {
    /// The reply while the counts are these and `free_heap` bytes are free.
    pub fn new(counters: &ConnectionCounters, free_heap: usize) -> (response: StatusResponse)
        ensures
            response.status@ == "ok"@,
            response.active_connections == counters.active,
            response.total_connections == counters.total,
            response.rejected_connections == counters.rejected,
            response.free_heap == free_heap as int % 0x1_0000_0000,
    {
        let free_heap: u64 = free_heap as u64;
        assert(free_heap as u32 == free_heap % 0x1_0000_0000) by (bit_vector);
        StatusResponse {
            status: "ok",
            active_connections: counters.active,
            total_connections: counters.total,
            rejected_connections: counters.rejected,
            free_heap: free_heap as u32,
        }
    }
}

} // verus!
