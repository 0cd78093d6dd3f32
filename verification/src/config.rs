use vstd::prelude::*;

verus! {

/// How a ring and its receive buffers are sized.
#[derive(Clone, Copy, Debug, Default)]
pub struct Config {
    pub entries: u32,
    pub recv_buffer_size: u32,
    pub recv_buffer_count: u32,
}

impl Config {
    /// A configuration for a ring of `entries` submission slots, with
    /// 256 receive buffers of 4096 bytes each.
    pub fn new(entries: u32) -> (c: Config)
        ensures
            c.entries == entries,
            c.recv_buffer_count == 256,
            c.recv_buffer_size == 4096,
    {
        Config { entries, recv_buffer_count: 256, recv_buffer_size: 4096 }
    }
}

} // verus!
