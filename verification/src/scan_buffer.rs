use vstd::prelude::*;
use vstd::std_specs::convert::FromSpec;

verus! {

/// A window of fixed length over a stream: each fill appends what the source
/// delivered at the tail and drops as many of the oldest elements at the head.
#[derive(Debug, Clone)]
pub struct ScanBuffer<T> {
    size: usize,
    scan_size: usize,
    default_value: T,
    buffer: Vec<T>,
}

/// The window `window` after `incoming` has been appended at its tail and as
/// many elements have been dropped at its head.
pub open spec fn shifted<T>(window: Seq<T>, incoming: Seq<T>) -> Seq<T> {
    (window + incoming).skip(incoming.len() as int)
}

/// Whether `items` is what converting each of `bytes`, in order, gives.
pub open spec fn converted<T: From<u8>>(bytes: Seq<u8>, items: Seq<T>) -> bool {
    &&& items.len() == bytes.len()
    &&& forall|j: int|
        0 <= j < bytes.len() ==> call_ensures(T::from, (bytes[j],), #[trigger] items[j])
}

/// The window after each of `chunks` has been filled in, in order.
pub open spec fn filled<T>(window: Seq<T>, chunks: Seq<Seq<T>>) -> Seq<T>
    decreases chunks.len(),
{
    if chunks.len() == 0 {
        window
    } else {
        filled(shifted(window, chunks[0]), chunks.drop_first())
    }
}

/// All elements of `chunks`, in order.
pub open spec fn joined<T>(chunks: Seq<Seq<T>>) -> Seq<T>
    decreases chunks.len(),
{
    if chunks.len() == 0 {
        Seq::empty()
    } else {
        chunks[0] + joined(chunks.drop_first())
    }
}

/// Filling chunk after chunk is one fill with all their elements in order.
pub proof fn lemma_filled<T>(window: Seq<T>, chunks: Seq<Seq<T>>)
    ensures
        filled(window, chunks) == shifted(window, joined(chunks)),
    decreases chunks.len(),
{
    if chunks.len() > 0 {
        let first = chunks[0];
        let rest = chunks.drop_first();
        lemma_filled(shifted(window, first), rest);
        assert(shifted(shifted(window, first), joined(rest)) =~= shifted(
            window,
            first + joined(rest),
        ));
    }
}

/// Chunks of one length hold that length times their number of elements.
proof fn lemma_joined_len<T>(chunks: Seq<Seq<T>>, each: nat)
    requires
        forall|i: int| 0 <= i < chunks.len() ==> (#[trigger] chunks[i]).len() == each,
    ensures
        joined(chunks).len() == chunks.len() * each,
    decreases chunks.len(),
{
    if chunks.len() > 0 {
        let rest = chunks.drop_first();
        assert forall|i: int| 0 <= i < rest.len() implies (#[trigger] rest[i]).len() == each by {
            assert(rest[i] == chunks[i + 1]);
        }
        lemma_joined_len(rest, each);
        assert(chunks.len() * each == each + rest.len() * each) by (nonlinear_arith)
            requires
                chunks.len() == rest.len() + 1,
        ;
    } else {
        assert(chunks.len() * each == 0) by (nonlinear_arith)
            requires
                chunks.len() == 0,
        ;
    }
}

/// A window whose length is a multiple of the scan size, filled as many times
/// as the scan size goes into its length, each time with a chunk of exactly
/// the scan size, holds all and only the elements of the chunks, in order.
pub proof fn lemma_full_refill<T>(window: Seq<T>, chunks: Seq<Seq<T>>, scan_size: nat)
    requires
        scan_size > 0,
        window.len() % scan_size == 0,
        chunks.len() == window.len() / scan_size,
        forall|i: int| 0 <= i < chunks.len() ==> (#[trigger] chunks[i]).len() == scan_size,
    ensures
        filled(window, chunks) == joined(chunks),
{
    lemma_filled(window, chunks);
    lemma_joined_len(chunks, scan_size);
    assert(chunks.len() * scan_size == window.len()) by (nonlinear_arith)
        requires
            scan_size > 0,
            window.len() % scan_size == 0,
            chunks.len() == window.len() / scan_size,
    ;
    assert(shifted(window, joined(chunks)) =~= joined(chunks));
}

impl<T> View for ScanBuffer<T> {
    type V = Seq<T>;

    /// The window, oldest element first.
    closed spec fn view(&self) -> Seq<T> {
        self.buffer@
    }
}

impl<T: Copy + From<u8>> ScanBuffer<T> {
    /// The length of the window.
    pub closed spec fn capacity(&self) -> nat {
        self.size as nat
    }

    /// The most elements that one fill takes from its source.
    pub closed spec fn scan_limit(&self) -> nat {
        self.scan_size as nat
    }

    /// The value of the slots that no fill has reached yet.
    pub closed spec fn filler(&self) -> T {
        self.default_value
    }

    /// The window as the vector that `process` shows to its viewer.
    pub closed spec fn window(&self) -> Vec<T> {
        self.buffer
    }

    /// The window has its fixed length, and no fill takes more than the window holds.
    pub open spec fn wf(&self) -> bool {
        &&& self@.len() == self.capacity()
        &&& self.scan_limit() <= self.capacity()
    }

    /// The vector that the viewer sees holds the window.
    pub proof fn lemma_window_view(&self)
        ensures
            self.window()@ == self@,
    {
    }

    /// A window of `size` slots, each holding `default_value`, whose fills take
    /// at most `scan_size` elements.
    pub fn new(size: usize, scan_size: usize, default_value: T) -> (b: ScanBuffer<T>)
        requires
            scan_size <= size,
        ensures
            b.wf(),
            b.capacity() == size,
            b.scan_limit() == scan_size,
            b.filler() == default_value,
            b@ == Seq::new(size as nat, |i: int| default_value),
    {
        let mut buffer: Vec<T> = Vec::with_capacity(size);
        let mut i: usize = 0;
        while i < size
            invariant
                i <= size,
                buffer@ == Seq::new(i as nat, |k: int| default_value),
            decreases size - i,
        {
            buffer.push(default_value);
            i = i + 1;
        }
        ScanBuffer { size, scan_size, default_value, buffer }
    }

    /// The length of the window.
    pub fn size(&self) -> (n: usize)
        ensures
            n == self.capacity(),
    {
        self.size
    }

    /// The most elements that one fill takes from its source.
    pub fn scan_size(&self) -> (n: usize)
        ensures
            n == self.scan_limit(),
    {
        self.scan_size
    }

    /// Fills the window from the front of `source`: takes as many bytes as
    /// there are, up to the scan size, converts each to an element, appends
    /// them at the tail and drops as many elements at the head. Returns how
    /// many bytes it took; with none to take the window stays as it is.
    pub fn shift(&mut self, source: &[u8]) -> (count: usize)
        requires
            old(self).wf(),
        ensures
            final(self).wf(),
            final(self).capacity() == old(self).capacity(),
            final(self).scan_limit() == old(self).scan_limit(),
            final(self).filler() == old(self).filler(),
            count == if source@.len() <= old(self).scan_limit() {
                source@.len()
            } else {
                old(self).scan_limit()
            },
            converted(source@.take(count as int), final(self)@.skip(old(self)@.len() - count)),
            final(self)@ == shifted(old(self)@, final(self)@.skip(old(self)@.len() - count)),
            T::obeys_from_spec() ==> final(self)@ == shifted(
                old(self)@,
                source@.take(count as int).map_values(|b: u8| T::from_spec(b)),
            ),
            count == 0 ==> final(self)@ == old(self)@,
    {
        let count = if source.len() <= self.scan_size {
            source.len()
        } else {
            self.scan_size
        };
        let kept = self.size - count;
        let ghost before = self.buffer@;
        let mut i: usize = 0;
        while i < kept
            invariant
                i <= kept,
                kept + count == self.size,
                self.size == old(self).size,
                self.scan_size == old(self).scan_size,
                self.default_value == old(self).default_value,
                self.buffer@.len() == self.size,
                before.len() == self.size,
                forall|k: int| 0 <= k < i ==> self.buffer@[k] == before[k + count],
                forall|k: int| i <= k < self.size ==> self.buffer@[k] == before[k],
            decreases kept - i,
        {
            let item = self.buffer[i + count];
            self.buffer.set(i, item);
            i = i + 1;
        }
        let mut j: usize = 0;
        while j < count
            invariant
                j <= count,
                count <= source@.len(),
                kept + count == self.size,
                self.size == old(self).size,
                self.scan_size == old(self).scan_size,
                self.default_value == old(self).default_value,
                self.buffer@.len() == self.size,
                before.len() == self.size,
                forall|k: int| 0 <= k < kept ==> self.buffer@[k] == before[k + count],
                forall|k: int|
                    0 <= k < j ==> call_ensures(
                        T::from,
                        (source@[k],),
                        #[trigger] self.buffer@[kept + k],
                    ),
                count == 0 ==> self.buffer@ == before,
            decreases count - j,
        {
            let item = T::from(source[j]);
            self.buffer.set(kept + j, item);
            j = j + 1;
        }
        proof {
            let taken = source@.take(count as int);
            let tail = self.buffer@.skip(kept as int);
            assert forall|k: int| 0 <= k < count implies call_ensures(
                T::from,
                (taken[k],),
                #[trigger] tail[k],
            ) by {
                assert(tail[k] == self.buffer@[kept + k]);
            }
            assert(self.buffer@ =~= shifted(before, tail));
            if T::obeys_from_spec() {
                assert(tail =~= taken.map_values(|b: u8| T::from_spec(b)));
            }
        }
        count
    }

    /// Shows the window to `func`, oldest element first, and returns what it returns.
    pub fn process<R, F: Fn(&Vec<T>) -> R>(&self, func: F) -> (r: R)
        requires
            call_requires(func, (&self.window(),)),
        ensures
            call_ensures(func, (&self.window(),), r),
    {
        func(&self.buffer)
    }
}

} // verus!
