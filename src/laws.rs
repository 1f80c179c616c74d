use crate::cache::next_log_id_spec;
use crate::codec::entry_hash_of;
use crate::publish::{
    begin, first_entry_args, step, well_formed_args, ActionView, ArgsView, EventView,
    PhaseView, SessionView,
};
use vstd::prelude::*;

verus! {

/// A new document published with nothing cached asks the node for its
/// arguments once, and then signs with exactly the arguments that the node
/// gave, leaving the cache empty.
pub proof fn lemma_create_without_cache_asks_node(reply: ArgsView)
    requires
        well_formed_args(reply),
    ensures
        begin(None, None).1 == ActionView::QueryNextArgs(None),
        step(None, begin(None, None).0, EventView::NextArgsReceived(reply)).2
            == ActionView::SignEntry(reply),
        step(None, begin(None, None).0, EventView::NextArgsReceived(reply)).0 == None::<u64>,
{
}

/// A new document published with a cached log identifier asks the node
/// nothing: it is signed as the first entry of that log, with no links.
pub proof fn lemma_create_with_cache_is_local(log_id: u64)
    ensures
        begin(Some(log_id), None).1 == ActionView::SignEntry(first_entry_args(log_id)),
        begin(Some(log_id), None).0.phase == PhaseView::Signing,
        first_entry_args(log_id).seq_num == 1,
        first_entry_args(log_id).backlink is None,
        first_entry_args(log_id).skiplink is None,
{
}

/// An update or delete always asks the node for its arguments, whatever is
/// cached, and no step of its publish changes the cache.
pub proof fn lemma_update_asks_node_and_keeps_cache(
    cache: Option<u64>,
    view_id: Seq<char>,
    s: SessionView,
    e: EventView,
)
    requires
        !s.is_create,
    ensures
        begin(cache, Some(view_id)).1 == ActionView::QueryNextArgs(Some(view_id)),
        !begin(cache, Some(view_id)).0.is_create,
        step(cache, s, e).0 == cache,
        !step(cache, s, e).1.is_create,
{
}

/// An update or delete is signed with exactly the arguments that the node
/// gave, whatever is cached, and the cache stays as it was.
pub proof fn lemma_update_signs_with_node_arguments(
    cache: Option<u64>,
    view_id: Seq<char>,
    reply: ArgsView,
)
    requires
        well_formed_args(reply),
    ensures
        step(cache, begin(cache, Some(view_id)).0, EventView::NextArgsReceived(reply)).2
            == ActionView::SignEntry(reply),
        step(cache, begin(cache, Some(view_id)).0, EventView::NextArgsReceived(reply)).0
            == cache,
{
}

/// Once the node takes the entry of a new document in log `log_id`, the
/// cache holds the log identifier after `log_id`.
pub proof fn lemma_create_commit_caches_next_log_id(
    cache: Option<u64>,
    s: SessionView,
    log_id: u64,
)
    requires
        s.is_create,
        s.phase is Submitting,
    ensures
        step(cache, s, EventView::PublishAccepted(log_id)).0 == next_log_id_spec(log_id),
        step(cache, s, EventView::PublishAccepted(log_id)).2 is Done,
{
}

/// Only the step that commits a publish can change the cache: every other
/// step, and so every step of a publish that fails with any error, leaves
/// it as it was.
pub proof fn lemma_failure_keeps_cache(cache: Option<u64>, s: SessionView, e: EventView)
    requires
        !(step(cache, s, e).2 is Done),
    ensures
        step(cache, s, e).0 == cache,
{
}

/// The identifier that a publish returns is the hash of the very entry
/// bytes that it handed out to be submitted.
pub proof fn lemma_identifier_is_hash_of_submitted_entry(
    cache: Option<u64>,
    s: SessionView,
    entry: Seq<u8>,
    operation: Seq<u8>,
    log_id: u64,
)
    requires
        s.phase is Signing,
    ensures
        step(cache, s, EventView::Signed(entry, operation)).2 == ActionView::Submit(
            entry,
            operation,
        ),
        step(
            step(cache, s, EventView::Signed(entry, operation)).0,
            step(cache, s, EventView::Signed(entry, operation)).1,
            EventView::PublishAccepted(log_id),
        ).2 == ActionView::Done(entry_hash_of(entry)),
{
}

} // verus!
