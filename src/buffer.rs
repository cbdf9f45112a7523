use vstd::prelude::*;

verus! {

/// One push on a buffer holding `items`: the new contents, and the batch
/// handed out if the push reached `max_size`.
pub open spec fn push_step<T>(items: Seq<T>, item: T, max_size: nat) -> (Seq<T>, Option<Seq<T>>) {
    let s = items.push(item);
    if s.len() >= max_size {
        (Seq::empty(), Some(s))
    } else {
        (s, None)
    }
}

/// One drain on a buffer holding `items`: the new contents and what is returned.
pub open spec fn drain_step<T>(items: Seq<T>) -> (Seq<T>, Seq<T>) {
    (Seq::empty(), items)
}

/// Pushing `inputs` one by one onto a buffer holding `items`: the contents at
/// the end and the batches handed out, in the order they left.
pub open spec fn push_all<T>(items: Seq<T>, inputs: Seq<T>, max_size: nat) -> (Seq<T>, Seq<Seq<T>>)
    decreases inputs.len(),
{
    if inputs.len() == 0 {
        (items, Seq::empty())
    } else {
        let (before, batches) = push_all(items, inputs.drop_last(), max_size);
        let (after, out) = push_step(before, inputs.last(), max_size);
        match out {
            Some(b) => (after, batches.push(b)),
            None => (after, batches),
        }
    }
}

/// What a vector option holds, as a sequence option.
pub open spec fn batch_view<T>(b: Option<Vec<T>>) -> Option<Seq<T>> {
    match b {
        Some(v) => Some(v@),
        None => None,
    }
}

/// A batch buffer: items accumulate in insertion order until their number
/// reaches `max_size`, and then leave together as one batch. Each push and
/// drain is one take-and-replace of the contents, so a batch leaves exactly
/// once. The buffer has one owner; callers that share it put it behind a
/// single lock, which then serializes these steps.
pub struct BatchBuffer<T> {
    items: Vec<T>,
    max_size: usize,
}

impl<T> View for BatchBuffer<T> {
    type V = Seq<T>;

    closed spec fn view(&self) -> Seq<T> {
        self.items@
    }
}

impl<T> BatchBuffer<T> {
    pub closed spec fn max_size(&self) -> nat {
        self.max_size as nat
    }

    pub fn new(max_size: usize) -> (r: Self)
        ensures
            r@ == Seq::<T>::empty(),
            r.max_size() == max_size,
    {
        BatchBuffer { items: Vec::new(), max_size }
    }

    pub fn len(&self) -> (r: usize)
        ensures
            r == self@.len(),
    {
        self.items.len()
    }

    /// Appends `item`; when the contents reach `max_size` they are taken out
    /// whole and returned as one batch, and the buffer starts over empty.
    pub fn push(&mut self, item: T) -> (batch: Option<Vec<T>>)
        ensures
            final(self).max_size() == old(self).max_size(),
            (final(self)@, batch_view(batch)) == push_step(old(self)@, item, old(self).max_size()),
    {
        self.items.push(item);
        if self.items.len() >= self.max_size {
            let mut batch: Vec<T> = Vec::new();
            std::mem::swap(&mut batch, &mut self.items);
            Some(batch)
        } else {
            None
        }
    }

    /// Takes the whole contents, in insertion order, and leaves the buffer empty.
    pub fn drain(&mut self) -> (r: Vec<T>)
        ensures
            final(self).max_size() == old(self).max_size(),
            (final(self)@, r@) == drain_step(old(self)@),
    {
        let mut out: Vec<T> = Vec::new();
        std::mem::swap(&mut out, &mut self.items);
        out
    }
}

/// A drain leaves the buffer empty, so a second drain right after it returns
/// nothing.
pub proof fn lemma_drain_twice<T>(items: Seq<T>)
    ensures
        drain_step(drain_step(items).0).1 == Seq::<T>::empty(),
{
}

/// Pushing any sequence onto an empty buffer with `max_size = k >= 1`: every
/// batch handed out holds exactly `k` items, one batch leaves on every k-th
/// push and the buffer is then empty, and the batches in order followed by
/// what stays make up the input exactly, in order, so no item is lost or
/// handed out twice.
pub proof fn lemma_push_all<T>(inputs: Seq<T>, k: nat)
    requires
        k >= 1,
    ensures
        ({
            let (rest, batches) = push_all(Seq::<T>::empty(), inputs, k);
            &&& forall|i: int| 0 <= i < batches.len() ==> (#[trigger] batches[i]).len() == k
            &&& batches.len() * k + rest.len() == inputs.len()
            &&& rest.len() < k
            &&& batches.flatten() + rest == inputs
        }),
    decreases inputs.len(),
{
    broadcast use Seq::lemma_flatten_push;

    if inputs.len() > 0 {
        let prefix = inputs.drop_last();
        lemma_push_all(prefix, k);
        let (before, batches) = push_all(Seq::<T>::empty(), prefix, k);
        let x = inputs.last();
        let n = batches.len();
        assert(inputs =~= prefix.push(x));
        assert(batches.flatten() + before.push(x) =~= (batches.flatten() + before).push(x));
        if before.len() + 1 >= k {
            assert(batches.push(before.push(x)).flatten() == batches.flatten() + before.push(x));
            assert((n + 1) * k == n * k + k) by (nonlinear_arith);
            assert(batches.flatten() + before.push(x) + Seq::<T>::empty() =~= inputs);
        } else {
            assert(batches.flatten() + before.push(x) =~= inputs);
        }
    } else {
        assert(Seq::<Seq<T>>::empty().flatten() == Seq::<T>::empty());
        assert(Seq::<T>::empty() + Seq::<T>::empty() =~= inputs);
    }
}

/// Producers that each push `m` items through one buffer with `max_size = k
/// >= 1`, in whatever order the lock admits them: the batches handed out and
/// what stays hold every pushed item exactly as often as it was pushed, and
/// `producers * m` items in all.
pub proof fn lemma_interleaved_producers<T>(producers: Seq<Seq<T>>, m: nat, order: Seq<T>, k: nat)
    requires
        k >= 1,
        forall|i: int| 0 <= i < producers.len() ==> (#[trigger] producers[i]).len() == m,
        order.to_multiset() == producers.flatten().to_multiset(),
    ensures
        ({
            let (rest, batches) = push_all(Seq::<T>::empty(), order, k);
            &&& (batches.flatten() + rest).to_multiset() == producers.flatten().to_multiset()
            &&& batches.flatten().len() + rest.len() == producers.len() * m
        }),
{
    broadcast use vstd::seq_lib::to_multiset_len;

    lemma_push_all(order, k);
    lemma_flatten_len(producers, m);
    let (rest, batches) = push_all(Seq::<T>::empty(), order, k);
    assert(batches.flatten() + rest == order);
    assert(order.len() == order.to_multiset().len());
    assert(producers.flatten().len() == producers.flatten().to_multiset().len());
}

proof fn lemma_flatten_len<T>(parts: Seq<Seq<T>>, m: nat)
    requires
        forall|i: int| 0 <= i < parts.len() ==> (#[trigger] parts[i]).len() == m,
    ensures
        parts.flatten().len() == parts.len() * m,
    decreases parts.len(),
{
    if parts.len() > 0 {
        let tail = parts.drop_first();
        assert forall|i: int| 0 <= i < tail.len() implies (#[trigger] tail[i]).len() == m by {
            assert(tail[i] == parts[i + 1]);
        }
        lemma_flatten_len(tail, m);
        assert(parts[0].len() == m);
        assert((tail.len() + 1) * m == tail.len() * m + m) by (nonlinear_arith);
    }
}

} // verus!
