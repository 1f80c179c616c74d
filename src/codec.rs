use crate::publish::{first_entry_args, ArgsView, Event, NextArguments};
use p2panda_rs::entry::encode::sign_and_encode_entry;
use p2panda_rs::entry::traits::AsEncodedEntry;
use p2panda_rs::entry::{LogId, SeqNum};
use p2panda_rs::identity::KeyPair;
use p2panda_rs::operation::encode::encode_plain_operation;
use p2panda_rs::operation::plain::PlainOperation;
use p2panda_rs::operation::traits::Actionable;
use p2panda_rs::operation::EncodedOperation;
use vstd::prelude::*;

verus! {

#[verifier::external_type_specification]
#[verifier::external_body]
pub struct ExKeyPair(KeyPair);

#[verifier::external_type_specification]
#[verifier::external_body]
pub struct ExPlainOperation(PlainOperation);

/// Content hash (hex encoded) that the entry with these encoded bytes is
/// known by.
pub uninterp spec fn entry_hash_of(entry: Seq<u8>) -> Seq<char>;

/// Relies on p2panda_rs::hash::Hash::new_from_bytes: the hash of an encoded
/// entry depends on its bytes alone.
#[verifier::external_body]
pub(crate) fn entry_hash(entry: &Vec<u8>) -> (r: String)
    ensures
        r@ == entry_hash_of(entry@),
{
    p2panda_rs::hash::Hash::new_from_bytes(entry).as_str().to_owned()
}

/// Relies on Actionable::previous of PlainOperation: the view identifier of
/// the document state that the operation refers to, if any.
#[verifier::external_body]
pub(crate) fn previous_view_id(operation: &PlainOperation) -> (r: Option<String>) {
    operation.previous().map(|id| id.to_string())
}

/// Relies on p2panda_rs::operation::encode::encode_plain_operation: the CBOR
/// bytes of the operation. It writes into a `Vec`, which cannot fail, and
/// the operation's serializers raise no value error, so it always succeeds.
#[verifier::external_body]
fn encode_operation(operation: &PlainOperation) -> (r: Option<Vec<u8>>)
    ensures
        r is Some,
{
    encode_plain_operation(operation).ok().map(|encoded| encoded.into_bytes())
}

/// Links that an entry with these arguments can carry: the first entry of a
/// log links to nothing, every later one at least to its predecessor.
pub open spec fn links_fit(a: ArgsView) -> bool {
    if a.seq_num == 1 {
        a.backlink is None && a.skiplink is None
    } else {
        a.seq_num > 1 && a.backlink is Some
    }
}

/// Relies on p2panda_rs::entry::encode::sign_and_encode_entry: the signed and
/// encoded entry, or `None` where the arguments do not make a valid entry.
/// `SeqNum::new` refuses zero, and `sign_entry` checks the links with
/// `validate_links`, which accepts only the patterns of `links_fit`; the
/// first entry of a log, with no links, is always accepted and encoded.
#[verifier::external_body]
fn sign_entry(args: &NextArguments, operation: &Vec<u8>, key_pair: &KeyPair) -> (r: Option<Vec<u8>>)
    ensures
        r is Some ==> links_fit(args@),
        (args@.seq_num == 1 && args@.backlink is None && args@.skiplink is None) ==> r is Some,
{
    let seq_num = SeqNum::new(args.seq_num).ok()?;
    let skiplink = args.skiplink.as_deref().map(p2panda_rs::hash::Hash::new).transpose().ok()?;
    let backlink = args.backlink.as_deref().map(p2panda_rs::hash::Hash::new).transpose().ok()?;
    let payload = EncodedOperation::from_bytes(operation);
    let log_id = LogId::new(args.log_id);
    sign_and_encode_entry(&log_id, &seq_num, skiplink.as_ref(), backlink.as_ref(), &payload, key_pair)
        .ok()
        .map(|entry| entry.into_bytes())
}

/// Encodes `operation` and signs an entry for it with `args`; the event
/// reports the encoded entry and operation, or that signing failed. The
/// first entry of a log, with no links, is always signed; arguments whose
/// links do not fit their sequence number never are.
pub fn encode_and_sign(args: &NextArguments, key_pair: &KeyPair, operation: &PlainOperation) -> (r: Event)
    ensures
        r is Signed || r is SigningFailed,
        r is Signed ==> links_fit(args@),
        args@ == first_entry_args(args@.log_id) ==> r is Signed,
{
    match encode_operation(operation) {
        None => Event::EncodingFailed,
        Some(encoded) => match sign_entry(args, &encoded, key_pair) {
            None => Event::SigningFailed,
            Some(entry) => Event::Signed { entry, operation: encoded },
        },
    }
}

} // verus!
