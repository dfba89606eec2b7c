use vstd::prelude::*;
use crate::keyed::{KeyedList, count_id, lemma_at_most_one_entry};

verus! {

/// A request that was handed to the host and awaits its response.
pub struct PendingRequest<P> {
    pub request_id: String,
    pub payload: P,
    /// When it was dispatched, on the host's monotonic clock (milliseconds).
    pub submitted_at: u64,
    pub retry_count: u32,
}

/// Requests in flight, keyed by request identifier. An entry is made when a
/// request is dispatched and taken out when its response is processed.
pub struct CorrelationTable<P> {
    entries: KeyedList<PendingRequest<P>>,
}

impl<P> View for CorrelationTable<P> {
    type V = Map<Seq<char>, PendingRequest<P>>;

    closed spec fn view(&self) -> Map<Seq<char>, PendingRequest<P>> {
        self.entries@
    }
}

impl<P> CorrelationTable<P> {
    /// The entries, keyed by request identifier, in dispatch order.
    pub closed spec fn entries(&self) -> Seq<(String, PendingRequest<P>)> {
        self.entries.entries()
    }

    /// At most one live entry per identifier, each filed under its own
    /// request identifier.
    pub closed spec fn wf(&self) -> bool {
        &&& self.entries.wf()
        &&& forall|k: Seq<char>| #[trigger] self.entries@.contains_key(k) ==> self.entries@[k].request_id@ == k
    }

    /// An empty table.
    pub fn new() -> (r: CorrelationTable<P>)
        ensures
            r.wf(),
            r@ == Map::<Seq<char>, PendingRequest<P>>::empty(),
    {
        CorrelationTable { entries: KeyedList::new() }
    }

    /// Whether a request with this identifier is awaiting its response.
    pub fn contains(&self, id: &String) -> (r: bool)
        requires
            self.wf(),
        ensures
            r == self@.contains_key(id@),
    {
        self.entries.contains_key(id)
    }

    /// The entry for `id`, if a request with that identifier is in flight.
    pub fn get(&self, id: &String) -> (r: Option<&PendingRequest<P>>)
        requires
            self.wf(),
        ensures
            match r {
                Some(e) => self@.contains_key(id@) && *e == self@[id@],
                None => !self@.contains_key(id@),
            },
    {
        self.entries.get(id)
    }

    /// Records a dispatched request with no retries so far. An entry with the
    /// same identifier is replaced, so the identifier still has one entry.
    pub fn insert(&mut self, request_id: String, payload: P, submitted_at: u64)
        requires
            old(self).wf(),
        ensures
            final(self).wf(),
            final(self)@ == old(self)@.insert(
                request_id@,
                PendingRequest { request_id, payload, submitted_at, retry_count: 0 },
            ),
    {
        let key = request_id.clone();
        let entry = PendingRequest { request_id, payload, submitted_at, retry_count: 0 };
        self.entries.insert(key, entry);
    }

    /// Takes out the entry for `id`, if there is one, and returns it; a
    /// response whose identifier is unknown leaves the table as it was.
    pub fn remove(&mut self, id: &String) -> (r: Option<PendingRequest<P>>)
        requires
            old(self).wf(),
        ensures
            final(self).wf(),
            final(self)@ == old(self)@.remove(id@),
            match r {
                Some(e) => old(self)@.contains_key(id@) && e == old(self)@[id@],
                None => !old(self)@.contains_key(id@),
            },
    {
        self.entries.remove(id)
    }

    /// Number of requests in flight.
    pub fn len(&self) -> (r: usize)
        ensures
            r == self.entries().len(),
    {
        self.entries.len()
    }
}

/// However requests are dispatched and answered, a well-formed table holds
/// at most one entry for any request identifier.
pub proof fn lemma_at_most_one_pending<P>(t: &CorrelationTable<P>, id: Seq<char>)
    requires
        t.wf(),
    ensures
        count_id(t.entries(), id) <= 1,
{
    lemma_at_most_one_entry(&t.entries, id);
}

} // verus!
