use vstd::prelude::*;

verus! {

/// The log identifier that follows `log_id`, or none when `log_id` is the
/// largest one there is.
pub open spec fn next_log_id_spec(log_id: u64) -> Option<u64> {
    if log_id == u64::MAX {
        None
    } else {
        Some((log_id + 1) as u64)
    }
}

/// Successor of a log identifier, as the remote node counts them.
pub fn next_log_id(log_id: u64) -> (r: Option<u64>)
    ensures
        r == next_log_id_spec(log_id),
{
    if log_id == u64::MAX {
        None
    } else {
        Some(log_id + 1)
    }
}

/// Remembers the next unused log identifier of this author, so that a new
/// document can be started without asking the node first.
pub struct SequencingCache {
    next_log_id: Option<u64>,
}

impl View for SequencingCache {
    type V = Option<u64>;

    closed spec fn view(&self) -> Option<u64> {
        self.next_log_id
    }
}

impl SequencingCache {
    /// A cache that knows nothing yet.
    pub fn new() -> (r: SequencingCache)
        ensures
            r@ == None::<u64>,
    {
        SequencingCache { next_log_id: None }
    }

    /// The cached log identifier, if the cache was primed.
    pub fn get(&self) -> (r: Option<u64>)
        ensures
            r == self@,
    {
        self.next_log_id
    }

    /// Overwrites the cached log identifier.
    pub fn set(&mut self, log_id: u64)
        ensures
            final(self)@ == Some(log_id),
    {
        self.next_log_id = Some(log_id);
    }

    /// Replaces the whole cached value, an empty one included.
    pub fn replace(&mut self, value: Option<u64>)
        ensures
            final(self)@ == value,
    {
        self.next_log_id = value;
    }
}

} // verus!
