use crate::cache::{next_log_id, next_log_id_spec, SequencingCache};
use crate::codec::{entry_hash, entry_hash_of, previous_view_id};
use p2panda_rs::operation::plain::PlainOperation;
use vstd::prelude::*;

verus! {

/// The view of an optional piece of text.
pub open spec fn text_view(o: Option<String>) -> Option<Seq<char>> {
    match o {
        Some(s) => Some(s@),
        None => None,
    }
}

/// What is needed to place the next entry in a log: its log, its sequence
/// number and the hashes of the entries it links back to.
pub struct NextArguments {
    pub log_id: u64,
    pub seq_num: u64,
    pub skiplink: Option<String>,
    pub backlink: Option<String>,
}

/// `NextArguments` with its links as sequences of characters.
pub struct ArgsView {
    pub log_id: u64,
    pub seq_num: u64,
    pub skiplink: Option<Seq<char>>,
    pub backlink: Option<Seq<char>>,
}

impl View for NextArguments {
    type V = ArgsView;

    open spec fn view(&self) -> ArgsView {
        ArgsView {
            log_id: self.log_id,
            seq_num: self.seq_num,
            skiplink: text_view(self.skiplink),
            backlink: text_view(self.backlink),
        }
    }
}

/// The arguments of the first entry of a fresh log.
pub open spec fn first_entry_args(log_id: u64) -> ArgsView {
    ArgsView { log_id, seq_num: 1, skiplink: None, backlink: None }
}

/// Arguments that a node may hand out: sequence numbers start at one, and
/// every entry but the first of its log links back to its predecessor.
pub open spec fn well_formed_args(a: ArgsView) -> bool {
    a.seq_num >= 1 && (a.seq_num > 1 ==> a.backlink is Some)
}

/// Why a publish did not go through.
#[derive(Clone, Copy, Debug, PartialEq, Eq, Structural)]
pub enum PublishError {
    /// The node could not be asked for arguments, or answered with
    /// arguments that cannot be used.
    RemoteQueryError,
    /// The operation could not be encoded.
    EncodingError,
    /// The entry could not be signed and encoded.
    SigningError,
    /// The node refused the entry.
    PublishRejected,
}

/// What happened outside since the last action was handed out.
pub enum Event {
    /// The node answered the arguments query.
    NextArgsReceived(NextArguments),
    /// The arguments query failed.
    NextArgsFailed,
    /// The entry was signed; these are the encoded entry and operation.
    Signed { entry: Vec<u8>, operation: Vec<u8> },
    /// The operation could not be encoded.
    EncodingFailed,
    /// The entry could not be signed.
    SigningFailed,
    /// The node took the entry into the log with this identifier.
    PublishAccepted { log_id: u64 },
    /// The node refused the entry.
    PublishRejected,
}

/// `Event` over views.
pub enum EventView {
    NextArgsReceived(ArgsView),
    NextArgsFailed,
    Signed(Seq<u8>, Seq<u8>),
    EncodingFailed,
    SigningFailed,
    PublishAccepted(u64),
    PublishRejected,
}

impl View for Event {
    type V = EventView;

    open spec fn view(&self) -> EventView {
        match self {
            Event::NextArgsReceived(a) => EventView::NextArgsReceived(a@),
            Event::NextArgsFailed => EventView::NextArgsFailed,
            Event::Signed { entry, operation } => EventView::Signed(entry@, operation@),
            Event::EncodingFailed => EventView::EncodingFailed,
            Event::SigningFailed => EventView::SigningFailed,
            Event::PublishAccepted { log_id } => EventView::PublishAccepted(*log_id),
            Event::PublishRejected => EventView::PublishRejected,
        }
    }
}

/// What the caller has to do next for a publish in progress.
pub enum Action {
    /// Ask the node for the next arguments, for the document with this view
    /// identifier, or for a new document.
    QueryNextArgs { view_id: Option<String> },
    /// Encode the operation and sign an entry with these arguments.
    SignEntry(NextArguments),
    /// Send the encoded entry and operation to the node.
    Submit { entry: Vec<u8>, operation: Vec<u8> },
    /// The publish went through; the operation is known by this identifier.
    Done { operation_id: String },
    /// The publish failed.
    Fail(PublishError),
}

/// `Action` over views.
pub enum ActionView {
    QueryNextArgs(Option<Seq<char>>),
    SignEntry(ArgsView),
    Submit(Seq<u8>, Seq<u8>),
    Done(Seq<char>),
    Fail(PublishError),
}

impl View for Action {
    type V = ActionView;

    open spec fn view(&self) -> ActionView {
        match self {
            Action::QueryNextArgs { view_id } => ActionView::QueryNextArgs(text_view(*view_id)),
            Action::SignEntry(a) => ActionView::SignEntry(a@),
            Action::Submit { entry, operation } => ActionView::Submit(entry@, operation@),
            Action::Done { operation_id } => ActionView::Done(operation_id@),
            Action::Fail(e) => ActionView::Fail(*e),
        }
    }
}

/// Where a publish stands.
pub enum Phase {
    /// Waiting for the node's arguments.
    Resolving,
    /// Waiting for the signed entry.
    Signing,
    /// Waiting for the node to take the entry with this hash.
    Submitting { entry_hash: String },
    /// The entry is in the log.
    Committed,
    /// The publish failed.
    Failed,
}

/// `Phase` over views.
pub enum PhaseView {
    Resolving,
    Signing,
    Submitting(Seq<char>),
    Committed,
    Failed,
}

impl View for Phase {
    type V = PhaseView;

    open spec fn view(&self) -> PhaseView {
        match self {
            Phase::Resolving => PhaseView::Resolving,
            Phase::Signing => PhaseView::Signing,
            Phase::Submitting { entry_hash } => PhaseView::Submitting(entry_hash@),
            Phase::Committed => PhaseView::Committed,
            Phase::Failed => PhaseView::Failed,
        }
    }
}

/// One publish in progress.
pub struct PublishSession {
    is_create: bool,
    view_id: Option<String>,
    phase: Phase,
}

/// What a publish in progress knows: whether it creates a document, the
/// document state it refers to otherwise, and its phase.
pub struct SessionView {
    pub is_create: bool,
    pub view_id: Option<Seq<char>>,
    pub phase: PhaseView,
}

impl View for PublishSession {
    type V = SessionView;

    closed spec fn view(&self) -> SessionView {
        SessionView { is_create: self.is_create, view_id: text_view(self.view_id), phase: self.phase@ }
    }
}

/// The arguments that can be had without asking the node: only a new
/// document, and only once the next log identifier is cached. `None` means
/// that the node must be asked.
pub open spec fn resolve(cache: Option<u64>, view_id: Option<Seq<char>>) -> Option<ArgsView> {
    match (view_id, cache) {
        (None, Some(log_id)) => Some(first_entry_args(log_id)),
        _ => None,
    }
}

/// How a publish of an operation that refers to `view_id` (none for a new
/// document) starts.
pub open spec fn begin(cache: Option<u64>, view_id: Option<Seq<char>>) -> (SessionView, ActionView) {
    let is_create = view_id is None;
    match resolve(cache, view_id) {
        Some(a) => (
            SessionView { is_create, view_id, phase: PhaseView::Signing },
            ActionView::SignEntry(a),
        ),
        None => (
            SessionView { is_create, view_id, phase: PhaseView::Resolving },
            ActionView::QueryNextArgs(view_id),
        ),
    }
}

/// Whether a publish in phase `s.phase` waits for event `e`.
pub open spec fn accepts(s: SessionView, e: EventView) -> bool {
    match (s.phase, e) {
        (PhaseView::Resolving, EventView::NextArgsReceived(_)) => true,
        (PhaseView::Resolving, EventView::NextArgsFailed) => true,
        (PhaseView::Signing, EventView::Signed(_, _)) => true,
        (PhaseView::Signing, EventView::EncodingFailed) => true,
        (PhaseView::Signing, EventView::SigningFailed) => true,
        (PhaseView::Submitting(_), EventView::PublishAccepted(_)) => true,
        (PhaseView::Submitting(_), EventView::PublishRejected) => true,
        _ => false,
    }
}

/// `s` moved on to `phase`.
pub open spec fn with_phase(s: SessionView, phase: PhaseView) -> SessionView {
    SessionView { phase, ..s }
}

/// The outcome of a step that fails the publish with `e`.
pub open spec fn failed(
    cache: Option<u64>,
    s: SessionView,
    e: PublishError,
) -> (Option<u64>, SessionView, ActionView) {
    (cache, with_phase(s, PhaseView::Failed), ActionView::Fail(e))
}

/// One step of a publish: the cache, the session and the next action after
/// event `e`. The cache changes only when the node takes the first entry of
/// a new document, and then holds the log identifier after the one used.
pub open spec fn step(cache: Option<u64>, s: SessionView, e: EventView) -> (
    Option<u64>,
    SessionView,
    ActionView,
) {
    match (s.phase, e) {
        (PhaseView::Resolving, EventView::NextArgsReceived(a)) => if well_formed_args(a) {
            (cache, with_phase(s, PhaseView::Signing), ActionView::SignEntry(a))
        } else {
            failed(cache, s, PublishError::RemoteQueryError)
        },
        (PhaseView::Resolving, EventView::NextArgsFailed) => failed(
            cache,
            s,
            PublishError::RemoteQueryError,
        ),
        (PhaseView::Signing, EventView::Signed(entry, operation)) => (
            cache,
            with_phase(s, PhaseView::Submitting(entry_hash_of(entry))),
            ActionView::Submit(entry, operation),
        ),
        (PhaseView::Signing, EventView::EncodingFailed) => failed(
            cache,
            s,
            PublishError::EncodingError,
        ),
        (PhaseView::Signing, EventView::SigningFailed) => failed(
            cache,
            s,
            PublishError::SigningError,
        ),
        (PhaseView::Submitting(hash), EventView::PublishAccepted(log_id)) => (
            if s.is_create {
                next_log_id_spec(log_id)
            } else {
                cache
            },
            with_phase(s, PhaseView::Committed),
            ActionView::Done(hash),
        ),
        (PhaseView::Submitting(_), EventView::PublishRejected) => failed(
            cache,
            s,
            PublishError::PublishRejected,
        ),
        // An event that the publish does not wait for is outside `accepts`.
        _ => (cache, s, ActionView::Fail(PublishError::RemoteQueryError)),
    }
}

/// Checks arguments that came from the node.
pub fn args_well_formed(a: &NextArguments) -> (r: bool)
    ensures
        r == well_formed_args(a@),
{
    a.seq_num >= 1 && (a.seq_num <= 1 || a.backlink.is_some())
}

impl PublishSession {
    /// Whether this publish waits for event `e`.
    pub fn accepts(&self, e: &Event) -> (r: bool)
        ensures
            r == accepts(self@, e@),
    {
        match (&self.phase, e) {
            (Phase::Resolving, Event::NextArgsReceived(_)) => true,
            (Phase::Resolving, Event::NextArgsFailed) => true,
            (Phase::Signing, Event::Signed { .. }) => true,
            (Phase::Signing, Event::EncodingFailed) => true,
            (Phase::Signing, Event::SigningFailed) => true,
            (Phase::Submitting { .. }, Event::PublishAccepted { .. }) => true,
            (Phase::Submitting { .. }, Event::PublishRejected) => true,
            _ => false,
        }
    }

    /// Whether the published operation starts a new document.
    pub fn is_create(&self) -> (r: bool)
        ensures
            r == self@.is_create,
    {
        self.is_create
    }

    /// Whether the publish has ended, committed or failed.
    pub fn is_finished(&self) -> (r: bool)
        ensures
            r == (self@.phase is Committed || self@.phase is Failed),
    {
        match self.phase {
            Phase::Committed | Phase::Failed => true,
            _ => false,
        }
    }
}

/// A client of one node, for one author, that caches the log identifier of
/// the author's next new document.
pub struct Client {
    endpoint: String,
    cache: SequencingCache,
}

/// The node's address and the cached log identifier.
pub struct ClientView {
    pub endpoint: Seq<char>,
    pub next_log_id: Option<u64>,
}

impl View for Client {
    type V = ClientView;

    closed spec fn view(&self) -> ClientView {
        ClientView { endpoint: self.endpoint@, next_log_id: self.cache@ }
    }
}

impl Client {
    /// A client of the node at `endpoint`, with nothing cached.
    pub fn new(endpoint: &str) -> (r: Client)
        ensures
            r@.endpoint == endpoint@,
            r@.next_log_id == None::<u64>,
    {
        Client { endpoint: endpoint.to_owned(), cache: SequencingCache::new() }
    }

    /// The node's address.
    pub fn endpoint(&self) -> (r: &String)
        ensures
            r@ == self@.endpoint,
    {
        &self.endpoint
    }

    /// The cached log identifier for the next new document.
    pub fn next_log_id(&self) -> (r: Option<u64>)
        ensures
            r == self@.next_log_id,
    {
        self.cache.get()
    }

    /// The arguments for the next entry of an operation that refers to
    /// `previous` (none for a new document), where they can be had without
    /// the node; `None` where the node must be asked.
    pub fn next_args(&self, previous: &Option<String>) -> (r: Option<NextArguments>)
        ensures
            match r {
                Some(a) => resolve(self@.next_log_id, text_view(*previous)) == Some(a@),
                None => resolve(self@.next_log_id, text_view(*previous)) is None,
            },
    {
        match (previous, self.cache.get()) {
            (None, Some(log_id)) => Some(
                NextArguments { log_id, seq_num: 1, skiplink: None, backlink: None },
            ),
            _ => None,
        }
    }

    /// Starts to publish an operation that refers to `previous` (none for a
    /// new document).
    pub fn begin_publish(&self, previous: Option<String>) -> (r: (PublishSession, Action))
        ensures
            (r.0@, r.1@) == begin(self@.next_log_id, text_view(previous)),
    {
        let is_create = previous.is_none();
        match self.next_args(&previous) {
            Some(a) => (
                PublishSession { is_create, view_id: previous, phase: Phase::Signing },
                Action::SignEntry(a),
            ),
            None => {
                let view_id = previous.clone();
                (
                    PublishSession { is_create, view_id: previous, phase: Phase::Resolving },
                    Action::QueryNextArgs { view_id },
                )
            },
        }
    }

    /// Starts to publish `operation`, which creates a new document or refers
    /// to the document state it updates or deletes. Which of the two it is
    /// comes from the operation's `previous` field, read through p2panda and
    /// taken on trust; `begin_publish` takes that reference directly.
    pub fn sign_and_send(&self, operation: &PlainOperation) -> (r: (PublishSession, Action))
        ensures
            (r.0@, r.1@) == begin(self@.next_log_id, r.0@.view_id),
    {
        self.begin_publish(previous_view_id(operation))
    }

    /// Takes the publish in `session` one step on after event `event`.
    pub fn advance(&mut self, session: &mut PublishSession, event: Event) -> (r: Action)
        requires
            accepts(old(session)@, event@),
        ensures
            (final(self)@.next_log_id, final(session)@, r@) == step(
                old(self)@.next_log_id,
                old(session)@,
                event@,
            ),
            final(self)@.endpoint == old(self)@.endpoint,
    {
        match event {
            Event::NextArgsReceived(a) => {
                if args_well_formed(&a) {
                    session.phase = Phase::Signing;
                    Action::SignEntry(a)
                } else {
                    session.phase = Phase::Failed;
                    Action::Fail(PublishError::RemoteQueryError)
                }
            },
            Event::NextArgsFailed => {
                session.phase = Phase::Failed;
                Action::Fail(PublishError::RemoteQueryError)
            },
            Event::Signed { entry, operation } => {
                let hash = entry_hash(&entry);
                session.phase = Phase::Submitting { entry_hash: hash };
                Action::Submit { entry, operation }
            },
            Event::EncodingFailed => {
                session.phase = Phase::Failed;
                Action::Fail(PublishError::EncodingError)
            },
            Event::SigningFailed => {
                session.phase = Phase::Failed;
                Action::Fail(PublishError::SigningError)
            },
            Event::PublishAccepted { log_id } => {
                let operation_id = match &session.phase {
                    Phase::Submitting { entry_hash } => entry_hash.clone(),
                    _ => String::new(),
                };
                if session.is_create {
                    self.cache.replace(next_log_id(log_id));
                }
                session.phase = Phase::Committed;
                Action::Done { operation_id }
            },
            Event::PublishRejected => {
                session.phase = Phase::Failed;
                Action::Fail(PublishError::PublishRejected)
            },
        }
    }
}

} // verus!
