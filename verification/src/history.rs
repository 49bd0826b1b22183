//! A fixed-capacity, insertion-ordered history of clipboard captures.
//!
//! The buffer keeps the `N` most recent strings that were pushed into it.
//! While it is filling, every push adds an item; once it is full, every push
//! first evicts the oldest item. Contracts are stated over the sequence of
//! retained texts, oldest first, which is the view of a
//! [`ClipboardHistory`].

use std::collections::VecDeque;
use vstd::prelude::*;

verus! {

/// The texts of a sequence of strings, in the same order.
pub open spec fn texts(strings: Seq<String>) -> Seq<Seq<char>> {
    strings.map_values(|s: String| s@)
}

/// What a buffer of capacity `cap` retains once `item` has been pushed onto
/// the retained sequence `items`: the item is appended, and the oldest entry
/// makes room for it when the buffer was already at capacity.
pub open spec fn push_model<T>(items: Seq<T>, cap: nat, item: T) -> Seq<T> {
    if items.len() < cap {
        items.push(item)
    } else {
        items.drop_first().push(item)
    }
}

/// What an initially empty buffer of capacity `cap` retains after every item
/// of `pushed` has been pushed into it, first to last.
pub open spec fn retained<T>(cap: nat, pushed: Seq<T>) -> Seq<T>
    decreases pushed.len(),
{
    if pushed.len() == 0 {
        Seq::empty()
    } else {
        push_model(retained(cap, pushed.drop_last()), cap, pushed.last())
    }
}

/// The last `cap` items of `pushed`, or all of them when there are fewer.
pub open spec fn most_recent<T>(cap: nat, pushed: Seq<T>) -> Seq<T> {
    if pushed.len() <= cap {
        pushed
    } else {
        pushed.subrange(pushed.len() - cap, pushed.len() as int)
    }
}

/// The most recent captures, oldest first, never more than `N` of them.
#[derive(Debug)]
pub struct ClipboardHistory<const N: usize> {
    deque: VecDeque<String>,
    cursor: usize,
}

impl<const N: usize> View for ClipboardHistory<N> {
    type V = Seq<Seq<char>>;

    /// The retained texts in insertion order: index 0 is the oldest.
    closed spec fn view(&self) -> Seq<Seq<char>> {
        texts(self.deque@)
    }
}

impl<const N: usize> ClipboardHistory<N> {
    /// Number of insertions counted so far, capped at the capacity.
    pub closed spec fn cursor(&self) -> nat {
        self.cursor as nat
    }

    /// The buffer has a positive capacity, never holds more than `N` items,
    /// and its cursor equals its occupancy.
    pub open spec fn wf(&self) -> bool {
        &&& N >= 1
        &&& self@.len() <= N
        &&& self.cursor() == self@.len()
    }

    /// An empty history of capacity `N`. A capacity of zero is not a
    /// history: use [`ClipboardHistory::try_new`] where `N` is not known to
    /// be positive.
    pub fn new() -> (history: Self)
        requires
            N >= 1,
        ensures
            history.wf(),
            history@ == Seq::<Seq<char>>::empty(),
            history.cursor() == 0,
    {
        ClipboardHistory { deque: VecDeque::new(), cursor: 0 }
    }

    /// An empty history of capacity `N`, or `None` when `N` is zero.
    pub fn try_new() -> (made: Option<Self>)
        ensures
            made is None <==> N == 0,
            made matches Some(history) ==> {
                &&& history.wf()
                &&& history@ == Seq::<Seq<char>>::empty()
                &&& history.cursor() == 0
            },
    {
        if N == 0 {
            None
        } else {
            Some(Self::new())
        }
    }

    /// Appends `value` as the newest item, evicting the oldest one first
    /// when the buffer is full. A full buffer stays full; a filling one
    /// moves its cursor up by one.
    pub fn push(&mut self, value: String)
        requires
            old(self).wf(),
        ensures
            final(self).wf(),
            final(self)@ == push_model(old(self)@, N as nat, value@),
            old(self).cursor() == N ==> final(self).cursor() == N,
            old(self).cursor() < N ==> final(self).cursor() == old(self).cursor() + 1,
    {
        if self.is_full() {
            self.deque.pop_front();
        } else {
            self.cursor += 1;
        }
        self.deque.push_back(value);
    }

    /// True once the cursor has reached the capacity, that is, once `N`
    /// items have been pushed.
    pub fn is_full(&self) -> (full: bool)
        ensures
            full == (self.cursor() == N),
    {
        self.cursor == N
    }

    /// The configured capacity `N`. This is not the number of items held:
    /// see [`ClipboardHistory::occupancy`] for that.
    pub fn len(&self) -> (n: usize)
        ensures
            n == N,
    {
        N
    }

    /// The configured capacity `N`, whatever the buffer holds.
    pub fn capacity(&self) -> (n: usize)
        ensures
            n == N,
    {
        N
    }

    /// The number of items currently retained: at most `N` in a
    /// well-formed buffer.
    pub fn occupancy(&self) -> (n: usize)
        ensures
            n == self@.len(),
    {
        self.deque.len()
    }

    /// Copies of the retained items in insertion order, oldest first.
    pub fn items(&self) -> (out: Vec<String>)
        ensures
            texts(out@) == self@,
    {
        let mut out: Vec<String> = Vec::new();
        let count: usize = self.deque.len();
        let mut i: usize = 0;
        while i < count
            invariant
                count == self.deque@.len(),
                i <= count,
                out@ == self.deque@.subrange(0, i as int),
            decreases count - i,
        {
            out.push(self.deque[i].clone());
            i += 1;
        }
        assert(out@ == self.deque@);
        out
    }
}

/// Pushing one more item onto a record of pushes applies one push to what
/// was retained before.
pub proof fn lemma_retained_push<T>(cap: nat, pushed: Seq<T>, item: T)
    ensures
        retained(cap, pushed.push(item)) == push_model(retained(cap, pushed), cap, item),
{
    assert(pushed.push(item).drop_last() == pushed);
}

/// A buffer retains exactly the `cap` most recent of the items pushed into
/// it, in the order in which they were pushed.
pub proof fn lemma_retained_is_most_recent<T>(cap: nat, pushed: Seq<T>)
    requires
        cap >= 1,
    ensures
        retained(cap, pushed) == most_recent(cap, pushed),
    decreases pushed.len(),
{
    if pushed.len() > 0 {
        lemma_retained_is_most_recent(cap, pushed.drop_last());
    }
}

/// While fewer than `N` items have been pushed the buffer is not full, and
/// it retains every one of them, in order.
pub proof fn lemma_filling_keeps_everything<const N: usize>(
    history: ClipboardHistory<N>,
    pushed: Seq<Seq<char>>,
)
    requires
        history.wf(),
        history@ == retained(N as nat, pushed),
        pushed.len() < N,
    ensures
        history.cursor() != N,
        history@.len() == pushed.len(),
        history@ == pushed,
{
    lemma_retained_is_most_recent(N as nat, pushed);
}

/// Once exactly `N` items have been pushed the buffer is full and still
/// retains all of them.
pub proof fn lemma_full_at_capacity<const N: usize>(
    history: ClipboardHistory<N>,
    pushed: Seq<Seq<char>>,
)
    requires
        history.wf(),
        history@ == retained(N as nat, pushed),
        pushed.len() == N,
    ensures
        history.cursor() == N,
        history@ == pushed,
{
    lemma_retained_is_most_recent(N as nat, pushed);
}

/// After `N + 1` pushes the buffer is full, holds `N` items, and has lost
/// exactly the first item pushed.
pub proof fn lemma_overflow_evicts_oldest<const N: usize>(
    history: ClipboardHistory<N>,
    pushed: Seq<Seq<char>>,
)
    requires
        history.wf(),
        history@ == retained(N as nat, pushed),
        pushed.len() == N + 1,
    ensures
        history.cursor() == N,
        history@.len() == N,
        history@ == pushed.subrange(1, N + 1),
{
    lemma_retained_is_most_recent(N as nat, pushed);
}

/// From the `N`-th push on the buffer is full, however many pushes follow.
pub proof fn lemma_full_forever<const N: usize>(
    history: ClipboardHistory<N>,
    pushed: Seq<Seq<char>>,
)
    requires
        history.wf(),
        history@ == retained(N as nat, pushed),
        pushed.len() >= N,
    ensures
        history.cursor() == N,
        history@ == pushed.subrange(pushed.len() - N, pushed.len() as int),
{
    lemma_retained_is_most_recent(N as nat, pushed);
}

} // verus!
