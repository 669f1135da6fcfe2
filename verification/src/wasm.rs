//! The bridge to a host runtime that fetches resources out of band.
//!
//! A request goes through four steps. It is issued: the runtime accepts the
//! path and answers with an identifier, and [`load_file`] stores the callback
//! under that identifier. It is in flight while the runtime transfers. The
//! runtime then notifies: [`file_loaded`] takes the callback out of the table
//! and settles, from the size the runtime reports, what the callback is owed:
//! the failure, or a buffer of that size for the runtime to copy the bytes
//! into. Last, [`Completion::deliver`] hands the response over.
//!
//! The table is borrowed only while an entry goes in or comes out. A callback
//! runs when the table is free again, so it may issue requests of its own.

use crate::error::Error;
use crate::error::Response;
use std::collections::HashMap;
use vstd::prelude::*;

verus! {

broadcast use vstd::std_specs::hash::group_hash_axioms;

/// The size the runtime reports for a transfer that failed.
pub const SIZE_UNAVAILABLE: i32 = -1;

/// The requests in flight: for each identifier the runtime has assigned and
/// not yet reported on, the callback that waits for the outcome.
pub struct PendingRequests<F: FnOnce(Response)> {
    entries: HashMap<u32, F>,
}

impl<F: FnOnce(Response)> View for PendingRequests<F> {
    type V = Map<u32, F>;

    closed spec fn view(&self) -> Map<u32, F> {
        self.entries@
    }
}

/// The table once a request has been issued under `file_id`.
pub open spec fn issued<F>(pending: Map<u32, F>, file_id: u32, on_loaded: F) -> Map<u32, F> {
    pending.insert(file_id, on_loaded)
}

/// The table once the notification for `file_id` has been handled.
pub open spec fn notified<F>(pending: Map<u32, F>, file_id: u32) -> Map<u32, F> {
    pending.remove(file_id)
}

/// A buffer of `len` zero bytes.
pub open spec fn zeroed(len: nat) -> Seq<u8> {
    Seq::new(len, |i: int| 0u8)
}

/// Whether `response` is what a transfer of the reported size is owed before
/// any byte is copied: the download failure for the sentinel, else a zeroed
/// buffer of exactly that size.
pub open spec fn owed(reported_size: i32, response: Response) -> bool {
    if reported_size == SIZE_UNAVAILABLE {
        response == Err::<Vec<u8>, Error>(Error::DownloadFailed)
    } else {
        response matches Ok(buffer) && buffer@ == zeroed(reported_size as nat)
    }
}

impl<F: FnOnce(Response)> PendingRequests<F> {
    /// The table holds finitely many requests, and each stored callback can
    /// be handed any response.
    pub open spec fn wf(&self) -> bool {
        &&& self@.dom().finite()
        &&& forall|file_id: u32, response: Response|
            self@.contains_key(file_id) ==> #[trigger] call_requires(
                self@[file_id],
                (response,),
            )
    }

    /// A table with no request in flight.
    pub fn new() -> (table: Self)
        ensures
            table.wf(),
            table@ == Map::<u32, F>::empty(),
    {
        PendingRequests { entries: HashMap::new() }
    }

    /// Whether a request is in flight under `file_id`.
    pub fn is_pending(&self, file_id: u32) -> (pending: bool)
        ensures
            pending == self@.contains_key(file_id),
    {
        self.entries.contains_key(&file_id)
    }

    /// The number of requests in flight.
    pub fn len(&self) -> (count: usize)
        ensures
            count == self@.len(),
    {
        self.entries.len()
    }
}

/// A request whose notification has arrived: its callback, no longer in the
/// table, and the response the callback is to receive.
///
/// Where the response holds a buffer, the runtime copies the transferred
/// bytes into it before the response is delivered. Where it holds the
/// failure there is no buffer, and nothing to copy.
pub struct Completion<F: FnOnce(Response)> {
    pub callback: F,
    pub response: Response,
}

impl<F: FnOnce(Response)> Completion<F> {
    /// Invokes the callback with the response. Both are consumed, so a
    /// completion is delivered once.
    pub fn deliver(self)
        requires
            call_requires(self.callback, (self.response,)),
        ensures
            call_ensures(self.callback, (self.response,), ()),
    {
        let Completion { callback, response } = self;
        callback(response)
    }
}

/// Issues a request: stores `on_loaded` under `file_id`, the identifier with
/// which the runtime accepted the request. The callback is not invoked.
///
/// The runtime gives each request it accepts an identifier that no request
/// in flight has, so `file_id` is not yet in the table. Every request that
/// was in flight stays in flight with the callback it had.
pub fn load_file<F: FnOnce(Response)>(table: &mut PendingRequests<F>, file_id: u32, on_loaded: F)
    requires
        old(table).wf(),
        !old(table)@.contains_key(file_id),
        forall|response: Response| call_requires(on_loaded, (response,)),
    ensures
        final(table).wf(),
        final(table)@ == issued(old(table)@, file_id, on_loaded),
        final(table)@.len() == old(table)@.len() + 1,
        forall|other: u32| #[trigger]
            old(table)@.contains_key(other) ==> {
                &&& final(table)@.contains_key(other)
                &&& final(table)@[other] == old(table)@[other]
            },
{
    table.entries.insert(file_id, on_loaded);
}

/// Handles the runtime's notification for `file_id`, given the size that the
/// runtime reports for the transfer: a size of zero or more, or
/// [`SIZE_UNAVAILABLE`].
///
/// The entry leaves the table. Its callback comes back with the response it
/// is owed: `Error::DownloadFailed` where the size is the sentinel, and
/// otherwise a zeroed buffer of exactly the reported size, which the runtime
/// fills before delivery. The callback is not invoked here.
///
/// A notification for an identifier that is not in flight breaks the
/// protocol with the runtime, and no caller may pass one.
pub fn file_loaded<F: FnOnce(Response)>(
    table: &mut PendingRequests<F>,
    file_id: u32,
    reported_size: i32,
) -> (completion: Completion<F>)
    requires
        old(table).wf(),
        old(table)@.contains_key(file_id),
        reported_size >= SIZE_UNAVAILABLE,
    ensures
        final(table).wf(),
        final(table)@ == notified(old(table)@, file_id),
        !final(table)@.contains_key(file_id),
        final(table)@.len() == old(table)@.len() - 1,
        completion.callback == old(table)@[file_id],
        owed(reported_size, completion.response),
        forall|response: Response| call_requires(completion.callback, (response,)),
{
    let taken = table.entries.remove(&file_id);
    let callback = taken.unwrap();
    let response = if reported_size == SIZE_UNAVAILABLE {
        Err(Error::DownloadFailed)
    } else {
        let buffer = vec![0u8; reported_size as usize];
        assert(buffer@ =~= zeroed(reported_size as nat));
        Ok(buffer)
    };
    Completion { callback, response }
}

/// Issues a request as [`load_file`] does, for a caller that cannot know
/// whether `file_id` is in flight. Where it is, the identifier is refused:
/// the table is left as it was, so the request already in flight keeps its
/// callback, and `on_loaded` comes back unused.
pub fn try_load_file<F: FnOnce(Response)>(
    table: &mut PendingRequests<F>,
    file_id: u32,
    on_loaded: F,
) -> (refused: Option<F>)
    requires
        old(table).wf(),
        forall|response: Response| call_requires(on_loaded, (response,)),
    ensures
        final(table).wf(),
        old(table)@.contains_key(file_id) ==> {
            &&& refused == Some(on_loaded)
            &&& final(table)@ == old(table)@
        },
        !old(table)@.contains_key(file_id) ==> {
            &&& refused is None
            &&& final(table)@ == issued(old(table)@, file_id, on_loaded)
        },
{
    if table.is_pending(file_id) {
        Some(on_loaded)
    } else {
        load_file(table, file_id, on_loaded);
        None
    }
}

/// Handles a notification as [`file_loaded`] does, for a caller that cannot
/// know whether `file_id` is in flight. Where it is not, the notification is
/// spurious or repeated: there is no completion, and the table is left as it
/// was.
pub fn try_file_loaded<F: FnOnce(Response)>(
    table: &mut PendingRequests<F>,
    file_id: u32,
    reported_size: i32,
) -> (completion: Option<Completion<F>>)
    requires
        old(table).wf(),
        reported_size >= SIZE_UNAVAILABLE,
    ensures
        final(table).wf(),
        !old(table)@.contains_key(file_id) ==> {
            &&& completion is None
            &&& final(table)@ == old(table)@
        },
        old(table)@.contains_key(file_id) ==> {
            &&& completion matches Some(found)
            &&& final(table)@ == notified(old(table)@, file_id)
            &&& found.callback == old(table)@[file_id]
            &&& owed(reported_size, found.response)
            &&& forall|response: Response| call_requires(found.callback, (response,))
        },
{
    if table.is_pending(file_id) {
        Some(file_loaded(table, file_id, reported_size))
    } else {
        None
    }
}

/// Issuing never disturbs a request in flight: under a fresh identifier the
/// table grows by exactly the new entry, and every other identifier maps to
/// what it mapped to before.
pub proof fn lemma_issue_keeps_requests_in_flight<F>(
    pending: Map<u32, F>,
    file_id: u32,
    on_loaded: F,
    other: u32,
)
    requires
        pending.dom().finite(),
        !pending.contains_key(file_id),
        pending.contains_key(other),
    ensures
        other != file_id,
        issued(pending, file_id, on_loaded).contains_key(other),
        issued(pending, file_id, on_loaded)[other] == pending[other],
        issued(pending, file_id, on_loaded).len() == pending.len() + 1,
{
}

/// A request is completed with the callback it was issued with: the
/// notification for an identifier hands out what was stored under it, and
/// leaves the table as it was before the request was issued.
pub proof fn lemma_notification_returns_issued_callback<F>(
    pending: Map<u32, F>,
    file_id: u32,
    on_loaded: F,
)
    requires
        !pending.contains_key(file_id),
    ensures
        issued(pending, file_id, on_loaded).contains_key(file_id),
        issued(pending, file_id, on_loaded)[file_id] == on_loaded,
        notified(issued(pending, file_id, on_loaded), file_id) == pending,
{
    assert(notified(issued(pending, file_id, on_loaded), file_id) =~= pending);
}

/// A notification drains its entry and no other: afterwards the identifier
/// is not in flight, so a second notification for it does not meet what
/// [`file_loaded`] requires, and every other request is untouched.
pub proof fn lemma_notification_drains_entry<F>(pending: Map<u32, F>, file_id: u32, other: u32)
    requires
        other != file_id,
    ensures
        !notified(pending, file_id).contains_key(file_id),
        notified(pending, file_id).contains_key(other) == pending.contains_key(other),
        pending.contains_key(other) ==> notified(pending, file_id)[other] == pending[other],
        notified(notified(pending, file_id), file_id) == notified(pending, file_id),
{
    assert(notified(notified(pending, file_id), file_id) =~= notified(pending, file_id));
}

/// The failure sentinel leaves no buffer: what is owed for it is the
/// download failure and nothing else, and what is owed for any other size is
/// never a failure.
pub proof fn lemma_sentinel_means_download_failed(reported_size: i32, response: Response)
    requires
        reported_size >= SIZE_UNAVAILABLE,
        owed(reported_size, response),
    ensures
        reported_size == SIZE_UNAVAILABLE <==> response is Err,
        response is Err ==> response == Err::<Vec<u8>, Error>(Error::DownloadFailed),
        response matches Ok(buffer) ==> buffer@.len() == reported_size,
{
}

} // verus!
