//! Frame classification and request/response correlation.
//!
//! A JSON-RPC frame is classified by which fields it carries, and response
//! frames are matched against a table of pending requests.  The table keeps
//! the session invariant: every outstanding request id was inserted exactly
//! once, is removed exactly once when its response arrives, and is never
//! reused while pending.

use crate::dispatch::DispatchState;
use crate::dispatch::Notification;
use crate::dispatch::NotifyEffect;
use crate::dispatch::notify_step;
use vstd::prelude::*;

verus! {

/// What a response frame carried back: the remote side either answered with
/// a result payload or reported a protocol-level error (code and message).
#[derive(Clone, Debug, PartialEq, Eq)]
pub enum ResponseOutcome {
    Success(String),
    RemoteError(i64, String),
}

/// The kind of an inbound JSON-RPC frame, read off its shape.
#[derive(Clone, Copy, Debug, PartialEq, Eq, Structural)]
pub enum FrameKind {
    /// carries both an id and a method: a request from the remote side
    Request,
    /// carries an id but no method: a response to one of our requests
    Response,
    /// carries a method but no id: a notification
    Notification,
    /// carries neither: not a routable frame
    Malformed,
}

/// How an inbound frame is classified from the fields it carries.
pub open spec fn classify_spec(has_id: bool, has_method: bool) -> FrameKind {
    if has_id && has_method {
        FrameKind::Request
    } else if has_id {
        FrameKind::Response
    } else if has_method {
        FrameKind::Notification
    } else {
        FrameKind::Malformed
    }
}

/// Classifies an inbound frame as request, response, or notification by
/// which of the two routing fields (correlation id, method name) it carries.
pub fn classify_frame(has_id: bool, has_method: bool) -> (kind: FrameKind)
    ensures
        kind == classify_spec(has_id, has_method),
{
    if has_id && has_method {
        FrameKind::Request
    } else if has_id {
        FrameKind::Response
    } else if has_method {
        FrameKind::Notification
    } else {
        FrameKind::Malformed
    }
}

/// The pending requests as a mapping from correlation id to completion,
/// built from the table's entry list (later entries shadow earlier ones;
/// a well-formed table has no two entries with one id).
pub open spec fn entry_map<T>(entries: Seq<(u64, T)>) -> Map<u64, T>
    decreases entries.len(),
{
    if entries.len() == 0 {
        Map::empty()
    } else {
        entry_map(entries.drop_last()).insert(entries.last().0, entries.last().1)
    }
}

/// No two entries share a correlation id.
pub open spec fn distinct_ids<T>(entries: Seq<(u64, T)>) -> bool {
    forall|i: int, j: int|
        0 <= i < j < entries.len() ==> (#[trigger] entries[i]).0 != (#[trigger] entries[j]).0
}

proof fn lemma_entry_map_dom<T>(entries: Seq<(u64, T)>)
    ensures
        forall|id: u64|
            #[trigger] entry_map(entries).dom().contains(id) <==> exists|i: int|
                0 <= i < entries.len() && (#[trigger] entries[i]).0 == id,
    decreases entries.len(),
{
    if entries.len() > 0 {
        let dl = entries.drop_last();
        lemma_entry_map_dom(dl);
        assert forall|id: u64| #[trigger]
            entry_map(entries).dom().contains(id) implies exists|i: int|
            0 <= i < entries.len() && (#[trigger] entries[i]).0 == id by {
            if id == entries.last().0 {
                assert((entries[entries.len() - 1]).0 == id);
            } else {
                assert(entry_map(entries) == entry_map(dl).insert(
                    entries.last().0,
                    entries.last().1,
                ));
                assert(entry_map(dl).dom().contains(id));
                let i = choose|i: int| 0 <= i < dl.len() && (#[trigger] dl[i]).0 == id;
                assert(dl[i] == entries[i]);
                assert((entries[i]).0 == id);
            }
        }
        assert forall|id: u64|
            exists|i: int|
                0 <= i < entries.len() && (#[trigger] entries[i]).0
                    == id implies #[trigger] entry_map(entries).dom().contains(id) by {
            let i = choose|i: int| 0 <= i < entries.len() && (#[trigger] entries[i]).0 == id;
            if i < entries.len() - 1 {
                assert(dl[i] == entries[i]);
                assert((dl[i]).0 == id);
                assert(entry_map(dl).dom().contains(id));
            }
        }
    }
}

proof fn lemma_entry_map_get<T>(entries: Seq<(u64, T)>, i: int)
    requires
        distinct_ids(entries),
        0 <= i < entries.len(),
    ensures
        entry_map(entries).dom().contains(entries[i].0),
        entry_map(entries)[entries[i].0] == entries[i].1,
    decreases entries.len(),
{
    if i < entries.len() - 1 {
        assert(entries.drop_last()[i] == entries[i]);
        lemma_entry_map_get(entries.drop_last(), i);
    }
}

proof fn lemma_entry_map_remove<T>(entries: Seq<(u64, T)>, i: int)
    requires
        distinct_ids(entries),
        0 <= i < entries.len(),
    ensures
        entry_map(entries.remove(i)) == entry_map(entries).remove(entries[i].0),
    decreases entries.len(),
{
    let id = entries[i].0;
    lemma_entry_map_dom(entries.drop_last());
    if i == entries.len() - 1 {
        assert(entries.remove(i) =~= entries.drop_last());
        assert(!entry_map(entries.drop_last()).dom().contains(id));
        assert(entry_map(entries).remove(id) =~= entry_map(entries.drop_last()));
    } else {
        let shorter = entries.remove(i);
        assert(shorter.drop_last() =~= entries.drop_last().remove(i));
        assert(shorter.last() == entries.last());
        lemma_entry_map_remove(entries.drop_last(), i);
        assert(entry_map(shorter) == entry_map(entries.drop_last()).remove(id).insert(
            entries.last().0,
            entries.last().1,
        ));
        assert(entry_map(entries).remove(id) =~= entry_map(entries.drop_last()).remove(id).insert(
            entries.last().0,
            entries.last().1,
        ));
    }
}

proof fn lemma_entry_map_len<T>(entries: Seq<(u64, T)>)
    requires
        distinct_ids(entries),
    ensures
        entry_map(entries).dom().finite(),
        entry_map(entries).dom().len() == entries.len(),
    decreases entries.len(),
{
    broadcast use vstd::set::group_set_axioms;

    if entries.len() > 0 {
        lemma_entry_map_len(entries.drop_last());
        lemma_entry_map_dom(entries.drop_last());
        assert(!entry_map(entries.drop_last()).dom().contains(entries.last().0));
    }
}

/// What handling a response frame with the given correlation id does to the
/// pending map: a matching id removes and yields its completion; an unmatched
/// id leaves the map unchanged and yields nothing.
pub open spec fn resolve_step<T>(pending: Map<u64, T>, id: u64) -> (Map<u64, T>, Option<T>) {
    if pending.dom().contains(id) {
        (pending.remove(id), Some(pending[id]))
    } else {
        (pending, None)
    }
}

/// A well-formed response frame whose id matches a pending request resolves
/// the corresponding completion exactly once: the first resolution yields the
/// completion stored for that id, and a second resolution of the same id
/// yields nothing, because the id left the table with the first.
pub proof fn lemma_resolve_exactly_once<T>(pending: Map<u64, T>, id: u64)
    requires
        pending.dom().contains(id),
    ensures
        resolve_step(pending, id).1 == Some(pending[id]),
        resolve_step(resolve_step(pending, id).0, id).1 == None::<T>,
        !resolve_step(pending, id).0.dom().contains(id),
{
}

/// The correlation table: each outbound request is assigned a fresh id, drawn
/// from a session-scoped monotonically increasing counter, and holds a
/// pending completion until the matching response arrives or the session
/// terminates.
pub struct PendingTable<T> {
    next_id: u64,
    entries: Vec<(u64, T)>,
}

impl<T> PendingTable<T> {
    /// The pending requests, as a mapping from correlation id to completion.
    pub closed spec fn pending(self) -> Map<u64, T> {
        entry_map(self.entries@)
    }

    /// How many ids the session has handed out so far; ids are allocated in
    /// increasing order, so no id below this count is ever handed out again.
    pub closed spec fn ids_used(self) -> int {
        self.next_id as int
    }

    /// Table invariant: entry ids are pairwise distinct and all lie below the
    /// allocation counter, so a fresh id can never collide with a pending one.
    pub closed spec fn wf(self) -> bool {
        &&& distinct_ids(self.entries@)
        &&& forall|i: int|
            0 <= i < self.entries@.len() ==> (#[trigger] self.entries@[i]).0 < self.next_id
    }

    /// An empty table: no request is pending and no id has been used.
    pub fn new() -> (table: Self)
        ensures
            table.wf(),
            table.pending() == Map::<u64, T>::empty(),
            table.ids_used() == 0,
    {
        PendingTable { next_id: 0, entries: Vec::new() }
    }

    /// Assigns a fresh correlation id to an outbound request and stores its
    /// pending completion under that id.  The id was never pending before,
    /// and afterwards exactly this completion is pending under it.
    pub fn register(&mut self, completion: T) -> (id: u64)
        requires
            old(self).wf(),
            old(self).ids_used() < u64::MAX as int,
        ensures
            final(self).wf(),
            !old(self).pending().dom().contains(id),
            final(self).pending() == old(self).pending().insert(id, completion),
            id as int == old(self).ids_used(),
            final(self).ids_used() == old(self).ids_used() + 1,
    {
        let id = self.next_id;
        self.next_id = self.next_id + 1;
        self.entries.push((id, completion));
        proof {
            lemma_entry_map_dom(old(self).entries@);
            assert(self.entries@.drop_last() =~= old(self).entries@);
        }
        id
    }

    /// Handles a response frame carrying the given correlation id: if the id
    /// is pending, removes it and returns its completion; otherwise returns
    /// nothing and leaves the table unchanged, so an unmatched response is
    /// discarded rather than fatal.
    pub fn resolve(&mut self, id: u64) -> (completion: Option<T>)
        requires
            old(self).wf(),
        ensures
            final(self).wf(),
            final(self).ids_used() == old(self).ids_used(),
            (final(self).pending(), completion) == resolve_step(old(self).pending(), id),
    {
        proof {
            lemma_entry_map_dom(self.entries@);
        }
        let end = self.entries.len();
        let mut idx: usize = 0;
        while idx < end
            invariant
                0 <= idx <= end,
                end == self.entries@.len(),
                *self == *old(self),
                old(self).wf(),
                forall|j: int| 0 <= j < idx ==> (#[trigger] self.entries@[j]).0 != id,
            decreases end - idx,
        {
            if self.entries[idx].0 == id {
                proof {
                    lemma_entry_map_get(self.entries@, idx as int);
                    lemma_entry_map_remove(self.entries@, idx as int);
                    assert forall|a: int, b: int|
                        0 <= a < b < self.entries@.remove(idx as int).len() implies (
                    #[trigger] self.entries@.remove(idx as int)[a]).0 != (
                    #[trigger] self.entries@.remove(idx as int)[b]).0 by {
                        assert(self.entries@.remove(idx as int)[a] == if a < idx as int {
                            self.entries@[a]
                        } else {
                            self.entries@[a + 1]
                        });
                    }
                }
                let entry = self.entries.remove(idx);
                return Some(entry.1);
            }
            idx += 1;
        }
        None
    }

    /// Tears the session down: removes every pending completion and hands all
    /// of them back, each exactly once, so that every outstanding request can
    /// be failed rather than left hanging.  Afterwards nothing is pending.
    pub fn fail_all(&mut self) -> (failed: Vec<(u64, T)>)
        requires
            old(self).wf(),
        ensures
            final(self).wf(),
            final(self).ids_used() == old(self).ids_used(),
            final(self).pending() == Map::<u64, T>::empty(),
            failed@.len() == old(self).pending().dom().len(),
            forall|i: int|
                0 <= i < failed@.len() ==> old(self).pending().dom().contains(
                    (#[trigger] failed@[i]).0,
                ) && old(self).pending()[failed@[i].0] == failed@[i].1,
            forall|i: int, j: int|
                0 <= i < j < failed@.len() ==> (#[trigger] failed@[i]).0 != (
                #[trigger] failed@[j]).0,
            forall|id: u64|
                #[trigger] old(self).pending().dom().contains(id) ==> exists|i: int|
                    0 <= i < failed@.len() && (#[trigger] failed@[i]).0 == id,
    {
        let failed = self.entries.split_off(0);
        proof {
            assert(failed@ =~= old(self).entries@);
            assert(self.entries@ =~= Seq::<(u64, T)>::empty());
            lemma_entry_map_len(old(self).entries@);
            lemma_entry_map_dom(old(self).entries@);
            assert forall|i: int| 0 <= i < failed@.len() implies old(self).pending().dom().contains(
                (#[trigger] failed@[i]).0,
            ) && old(self).pending()[failed@[i].0] == failed@[i].1 by {
                lemma_entry_map_get(old(self).entries@, i);
            }
        }
        failed
    }
}

/// Matches a response frame against the pending table.  A matching id yields
/// the stored completion paired with exactly the response's own payload, and
/// leaves the id no longer pending; an unmatched id yields nothing and
/// changes nothing.
pub fn match_response<T>(table: &mut PendingTable<T>, id: u64, outcome: ResponseOutcome) -> (r:
    Option<(T, ResponseOutcome)>)
    requires
        old(table).wf(),
    ensures
        final(table).wf(),
        final(table).ids_used() == old(table).ids_used(),
        final(table).pending() == resolve_step(old(table).pending(), id).0,
        old(table).pending().dom().contains(id) ==> r == Some(
            (old(table).pending()[id], outcome),
        ),
        !old(table).pending().dom().contains(id) ==> r == None::<(T, ResponseOutcome)>,
{
    match table.resolve(id) {
        Some(completion) => Some((completion, outcome)),
        None => None,
    }
}

/// An outbound request frame as the client handle sends it: the fresh
/// correlation id the response must echo, and the method name.
pub struct OutboundRequest {
    pub id: u64,
    pub method: String,
}

/// What every request-shaped operation of the client handle does: allocates a
/// fresh correlation id, stores the pending completion under it, and yields
/// the frame to send; the completion resolves when the response carrying that
/// id arrives.
pub fn send_request<T>(table: &mut PendingTable<T>, method: String, completion: T) -> (request:
    OutboundRequest)
    requires
        old(table).wf(),
        old(table).ids_used() < u64::MAX as int,
    ensures
        final(table).wf(),
        request.method == method,
        !old(table).pending().dom().contains(request.id),
        final(table).pending() == old(table).pending().insert(request.id, completion),
        request.id as int == old(table).ids_used(),
        final(table).ids_used() == old(table).ids_used() + 1,
{
    let id = table.register(completion);
    OutboundRequest { id, method }
}

/// An inbound wire item after JSON decoding, reduced to what the loop routes
/// on.
pub enum InboundMessage {
    /// a request from the remote side: carries both an id and a method
    RequestMsg { id: u64, method: String },
    /// a response to one of our requests: carries an id and its payload
    ResponseMsg { id: u64, payload: ResponseOutcome },
    /// a notification: carries a method and no id
    NotificationMsg { note: Notification },
    /// a frame that carries neither routing field: logged and dropped
    MalformedMsg,
}

/// What the loop is fed: a wire item, or the internal stop event, which is
/// never serialized and never arrives over the wire.
pub enum SessionInput {
    Frame(InboundMessage),
    Stop,
}

/// Whether the event loop keeps running after an input.
#[derive(Clone, Copy, Debug, PartialEq, Eq, Structural)]
pub enum LoopControl {
    Proceed,
    Halt,
}

/// What the session did with one input.
pub enum RouteOutcome<T, S> {
    /// a matching response: resolve this pending completion with this payload
    Deliver { completion: T, payload: ResponseOutcome },
    /// an unmatched response or a malformed frame: logged and dropped
    Discard,
    /// a request from the remote side: this client serves none, so the loop
    /// answers that the method is not found
    RejectRequest { id: u64 },
    /// a notification fired the one-shot indexing signal
    IndexedSignal { signal: S },
    /// a notification surfaced a message on the diagnostic stream
    Diagnostic { message: String },
    /// a notification (or the stop event) with no further effect
    Ignored,
}

/// What `SessionEngine::handle_input` must produce: how one input moves the
/// pending map and the one-shot slot, whether the loop keeps running, and
/// what the loop must do with the input.  Only the internal stop event halts
/// the loop; no wire frame can.
pub open spec fn session_step_post<T, S>(
    pending0: Map<u64, T>,
    slot0: Option<S>,
    input: SessionInput,
    pending1: Map<u64, T>,
    slot1: Option<S>,
    control: LoopControl,
    routed: RouteOutcome<T, S>,
) -> bool {
    match input {
        SessionInput::Stop => {
            &&& pending1 == pending0
            &&& slot1 == slot0
            &&& control is Halt
            &&& routed is Ignored
        },
        SessionInput::Frame(msg) => {
            &&& control is Proceed
            &&& match msg {
                InboundMessage::RequestMsg { id, .. } => {
                    &&& pending1 == pending0
                    &&& slot1 == slot0
                    &&& (routed matches RouteOutcome::RejectRequest { id: rejected } && rejected
                        == id)
                },
                InboundMessage::ResponseMsg { id, payload } => {
                    &&& slot1 == slot0
                    &&& pending1 == resolve_step(pending0, id).0
                    &&& (pending0.dom().contains(id) ==> (
                    routed matches RouteOutcome::Deliver { completion, payload: delivered }
                        && completion == pending0[id] && delivered == payload))
                    &&& (!pending0.dom().contains(id) ==> routed is Discard)
                },
                InboundMessage::NotificationMsg { note } => {
                    &&& pending1 == pending0
                    &&& slot1 == notify_step(slot0, note).0
                    &&& (routed matches RouteOutcome::IndexedSignal { signal } ==> notify_step(
                        slot0,
                        note,
                    ).1 == Some(signal))
                    &&& (notify_step(slot0, note).1 is Some ==> (
                    routed matches RouteOutcome::IndexedSignal { signal } && notify_step(
                        slot0,
                        note,
                    ).1 == Some(signal)))
                    &&& (routed matches RouteOutcome::Diagnostic { message } ==> notify_step(
                        slot0,
                        note,
                    ).2 == Some(message@))
                    &&& (notify_step(slot0, note).2 is Some ==> (
                    routed matches RouteOutcome::Diagnostic { message } && notify_step(
                        slot0,
                        note,
                    ).2 == Some(message@)))
                    &&& (routed is Ignored ==> notify_step(slot0, note).1 is None && notify_step(
                        slot0,
                        note,
                    ).2 is None)
                    &&& (routed is IndexedSignal || routed is Diagnostic || routed is Ignored)
                },
                InboundMessage::MalformedMsg => {
                    &&& pending1 == pending0
                    &&& slot1 == slot0
                    &&& routed is Discard
                },
            }
        },
    }
}

/// The protocol session's state: the correlation table for outbound requests
/// and the dispatcher's per-session state for inbound notifications.
pub struct SessionEngine<T, S> {
    pub table: PendingTable<T>,
    pub state: DispatchState<S>,
}

impl<T, S> SessionEngine<T, S> {
    /// A fresh session: nothing pending, the indexing signal armed.
    pub fn new(signal: S) -> (engine: Self)
        ensures
            engine.table.wf(),
            engine.table.pending() == Map::<u64, T>::empty(),
            engine.table.ids_used() == 0,
            engine.state.indexed_signal == Some(signal),
    {
        SessionEngine { table: PendingTable::new(), state: DispatchState::new(signal) }
    }

    /// Routes one loop input: a response frame is matched against the
    /// correlation table (a matching one delivers its completion, an
    /// unmatched one is discarded, never fatal), a notification runs its
    /// handler, a request from the remote side is rejected as unserved, a
    /// malformed frame is dropped, and the internal stop event — and only it
    /// — halts the loop.
    pub fn handle_input(&mut self, input: SessionInput) -> (r: (LoopControl, RouteOutcome<T, S>))
        requires
            old(self).table.wf(),
        ensures
            final(self).table.wf(),
            final(self).table.ids_used() == old(self).table.ids_used(),
            session_step_post(
                old(self).table.pending(),
                old(self).state.indexed_signal,
                input,
                final(self).table.pending(),
                final(self).state.indexed_signal,
                r.0,
                r.1,
            ),
    {
        match input {
            SessionInput::Stop => (LoopControl::Halt, RouteOutcome::Ignored),
            SessionInput::Frame(msg) => {
                let routed = match msg {
                    InboundMessage::RequestMsg { id, .. } => RouteOutcome::RejectRequest { id },
                    InboundMessage::ResponseMsg { id, payload } => {
                        match match_response(&mut self.table, id, payload) {
                            Some((completion, delivered)) => RouteOutcome::Deliver {
                                completion,
                                payload: delivered,
                            },
                            None => RouteOutcome::Discard,
                        }
                    },
                    InboundMessage::NotificationMsg { note } => {
                        match self.state.route_notification(note) {
                            NotifyEffect::FiredIndexed(signal) => RouteOutcome::IndexedSignal {
                                signal,
                            },
                            NotifyEffect::Surface(message) => RouteOutcome::Diagnostic { message },
                            NotifyEffect::NoEffect => RouteOutcome::Ignored,
                        }
                    },
                    InboundMessage::MalformedMsg => RouteOutcome::Discard,
                };
                (LoopControl::Proceed, routed)
            },
        }
    }
}

} // verus!
