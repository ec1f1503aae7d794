use vstd::prelude::*;

verus! {

/// How many bytes a read may ask of the inner source: the room in the
/// caller's buffer, capped by what is left below the limit.
pub open spec fn granted(consumed: nat, limit: nat, capacity: nat) -> nat {
    if consumed >= limit {
        0
    } else if limit - consumed < capacity {
        (limit - consumed) as nat
    } else {
        capacity
    }
}

/// How many bytes one read yields, where the inner source, asked for `n`
/// bytes, delivers `inner(n)` of them: nothing where nothing may be asked,
/// and what the inner source delivers otherwise.
pub open spec fn read_yield(
    consumed: nat,
    limit: nat,
    capacity: nat,
    inner: spec_fn(nat) -> nat,
) -> nat {
    let ask = granted(consumed, limit, capacity);
    if ask == 0 {
        0
    } else {
        inner(ask)
    }
}

/// A fresh limiter does not end a stream that has data: where the limit
/// and the caller's buffer have room for a byte, and the inner source
/// delivers at least one byte whenever it is asked for one or more, the
/// first read yields at least one byte, and no more than the limit.
pub proof fn lemma_fresh_read_not_empty(limit: nat, capacity: nat, inner: spec_fn(nat) -> nat)
    requires
        limit >= 1,
        capacity >= 1,
        forall|n: nat| n >= 1 ==> 1 <= #[trigger] inner(n) <= n,
    ensures
        1 <= read_yield(0, limit, capacity, inner) <= limit,
{
}

/// A read yields nothing only where the limit is reached, the caller's
/// buffer has no room, or the inner source delivers nothing.
pub proof fn lemma_empty_read(consumed: nat, limit: nat, capacity: nat, inner: spec_fn(nat) -> nat)
    requires
        read_yield(consumed, limit, capacity, inner) == 0,
    ensures
        consumed >= limit || capacity == 0 || inner(granted(consumed, limit, capacity)) == 0,
{
}

/// The counter of a byte source that yields at most `max_bytes` bytes in
/// all. Once the limit is reached, reads end without touching the inner
/// source, so that a new limiter over the same source goes on where this
/// one stopped.
#[derive(Clone, Copy, Debug)]
pub struct LimitedAsyncReader {
    total_bytes: usize,
    max_bytes: usize,
}

impl LimitedAsyncReader {
    /// Bytes yielded so far.
    pub closed spec fn consumed(&self) -> nat {
        self.total_bytes as nat
    }

    /// The most that is ever yielded.
    pub closed spec fn limit(&self) -> nat {
        self.max_bytes as nat
    }

    /// A limiter that has yielded nothing yet.
    pub fn new(max_bytes: usize) -> (r: Self)
        ensures
            r.consumed() == 0,
            r.limit() == max_bytes,
    {
        LimitedAsyncReader { total_bytes: 0, max_bytes }
    }

    /// Bytes yielded so far.
    pub fn total_bytes(&self) -> (n: usize)
        ensures
            n == self.consumed(),
    {
        self.total_bytes
    }

    /// The most that is ever yielded.
    pub fn max_bytes(&self) -> (n: usize)
        ensures
            n == self.limit(),
    {
        self.max_bytes
    }

    /// How many bytes the next read may ask of the inner source, for a
    /// caller whose buffer has room for `capacity`. Zero means that the read
    /// ends here, without a call of the inner source.
    pub fn window(&self, capacity: usize) -> (n: usize)
        ensures
            n == granted(self.consumed(), self.limit(), capacity as nat),
    {
        if self.total_bytes >= self.max_bytes {
            0
        } else {
            let remaining = self.max_bytes - self.total_bytes;
            if remaining < capacity {
                remaining
            } else {
                capacity
            }
        }
    }

    /// Counts the `delivered` bytes that the inner source wrote in a read.
    /// The inner source is never given more room than is left below the
    /// limit, so what it writes stays within it.
    pub fn record(&mut self, delivered: usize)
        requires
            old(self).consumed() + delivered <= old(self).limit(),
        ensures
            final(self).limit() == old(self).limit(),
            final(self).consumed() == old(self).consumed() + delivered,
    {
        self.total_bytes = self.total_bytes + delivered;
    }
}

} // verus!
