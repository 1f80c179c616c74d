//! Entry sequencing and publish caching for a client that appends signed
//! entries to per-author logs held by a remote node.

mod cache;
mod codec;
mod laws;
mod publish;

pub use cache::{next_log_id, SequencingCache};
pub use codec::{encode_and_sign, entry_hash_of, links_fit};
pub use publish::{
    accepts, begin, first_entry_args, resolve, step, well_formed_args, Action, ActionView,
    ArgsView, Client, ClientView, Event, EventView, NextArguments, Phase, PhaseView, PublishError,
    PublishSession, SessionView,
};
pub use laws::{
    lemma_create_commit_caches_next_log_id, lemma_create_with_cache_is_local,
    lemma_create_without_cache_asks_node, lemma_failure_keeps_cache,
    lemma_identifier_is_hash_of_submitted_entry, lemma_update_asks_node_and_keeps_cache,
    lemma_update_signs_with_node_arguments,
};
