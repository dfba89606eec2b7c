use vstd::prelude::*;

verus! {

/// A first-in, first-out mailbox between the host runtime and the tick loop.
/// The producer appends; once per tick the consumer takes everything that is
/// there, in the order in which it was appended.
pub struct EventQueue<T> {
    items: Vec<T>,
}

impl<T> View for EventQueue<T> {
    type V = Seq<T>;

    closed spec fn view(&self) -> Seq<T> {
        self.items@
    }
}

/// The contents of a queue with `q` in it after `items` were appended one by one.
pub open spec fn after_enqueues<T>(q: Seq<T>, items: Seq<T>) -> Seq<T>
    decreases items.len(),
{
    if items.len() == 0 {
        q
    } else {
        after_enqueues(q, items.drop_last()).push(items.last())
    }
}

impl<T> EventQueue<T> {
    /// An empty queue.
    pub fn new() -> (r: EventQueue<T>)
        ensures
            r@ == Seq::<T>::empty(),
    {
        EventQueue { items: Vec::new() }
    }

    /// Appends one item behind everything already waiting.
    pub fn enqueue(&mut self, item: T)
        ensures
            final(self)@ == old(self)@.push(item),
    {
        self.items.push(item);
    }

    /// Number of items waiting.
    pub fn len(&self) -> (r: usize)
        ensures
            r == self@.len(),
    {
        self.items.len()
    }

    pub fn is_empty(&self) -> (r: bool)
        ensures
            r == (self@.len() == 0),
    {
        self.items.len() == 0
    }

    /// Takes every waiting item, oldest first, and leaves the queue empty.
    pub fn drain(&mut self) -> (r: Vec<T>)
        ensures
            r@ == old(self)@,
            final(self)@ == Seq::<T>::empty(),
    {
        let mut taken: Vec<T> = Vec::new();
        std::mem::swap(&mut taken, &mut self.items);
        taken
    }
}

/// Items appended to an empty queue by one producer come out of the next
/// drain in the order in which they were appended: nothing is lost,
/// duplicated or reordered.
pub proof fn lemma_fifo_order<T>(items: Seq<T>)
    ensures
        after_enqueues(Seq::<T>::empty(), items) == items,
    decreases items.len(),
{
    if items.len() > 0 {
        lemma_fifo_order(items.drop_last());
        assert(items.drop_last().push(items.last()) =~= items);
    }
}

/// What is already waiting comes out before anything appended later.
pub proof fn lemma_waiting_items_first<T>(q: Seq<T>, items: Seq<T>)
    ensures
        after_enqueues(q, items) == q + items,
    decreases items.len(),
{
    if items.len() > 0 {
        lemma_waiting_items_first(q, items.drop_last());
        assert((q + items.drop_last()).push(items.last()) =~= q + items);
    }
}

} // verus!
