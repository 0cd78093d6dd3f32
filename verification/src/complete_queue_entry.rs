use vstd::prelude::*;

verus! {

/// One completion queue entry, field for field as the kernel writes it.
#[derive(Clone, Copy, Debug, Default)]
pub struct CompleteQueueEntry {
    pub user_data: u64,
    pub res: i32,
    pub flags: u32,
}

} // verus!
