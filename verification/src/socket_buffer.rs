//! A fixed-capacity rolling buffer for bytes read from a socket.
use vstd::prelude::*;

verus! {

broadcast use {vstd::slice::group_slice_axioms, vstd::array::group_array_axioms};

/// The byte that ends a line.
pub const NEWLINE: u8 = 10u8;

/// Index of the first newline in `s`, or the length of `s` when it holds none.
pub open spec fn first_newline(s: Seq<u8>) -> int
    decreases s.len(),
{
    if s.len() == 0 || s[0] == NEWLINE {
        0
    } else {
        1 + first_newline(s.skip(1))
    }
}

/// The first newline-terminated line of `s`, its newline included.
pub open spec fn first_line(s: Seq<u8>) -> Option<Seq<u8>> {
    if first_newline(s) < s.len() {
        Some(s.take(first_newline(s) + 1))
    } else {
        None
    }
}

/// The complete lines of `s`, each with its newline, in order.
pub open spec fn lines(s: Seq<u8>) -> Seq<Seq<u8>>
    decreases s.len(),
    via lines_decreases
{
    match first_line(s) {
        Some(line) => seq![line] + lines(s.skip(line.len() as int)),
        None => Seq::empty(),
    }
}

#[via_fn]
proof fn lines_decreases(s: Seq<u8>) {
    lemma_first_newline(s);
}

/// What is left once the complete lines are taken off the front.
pub open spec fn incomplete_line(buffered: Seq<u8>) -> Seq<u8>
    decreases buffered.len(),
    via incomplete_line_decreases
{
    match first_line(buffered) {
        Some(line) => incomplete_line(buffered.skip(line.len() as int)),
        None => buffered,
    }
}

#[via_fn]
proof fn incomplete_line_decreases(buffered: Seq<u8>) {
    lemma_first_newline(buffered);
}

/// `first_newline` is the least index that holds a newline.
pub proof fn lemma_first_newline(s: Seq<u8>)
    ensures
        0 <= first_newline(s) <= s.len(),
        first_newline(s) < s.len() ==> s[first_newline(s)] == NEWLINE,
        forall|k: int| 0 <= k < first_newline(s) ==> s[k] != NEWLINE,
    decreases s.len(),
{
    if s.len() != 0 && s[0] != NEWLINE {
        let rest = s.skip(1);
        lemma_first_newline(rest);
        assert forall|k: int| 0 <= k < first_newline(s) implies s[k] != NEWLINE by {
            if k > 0 {
                assert(s[k] == rest[k - 1]);
            }
        }
    }
}

/// An index below which `s` holds no newline is the first newline as soon as it
/// is one, or as soon as it is the end of `s`.
pub proof fn lemma_first_newline_at(s: Seq<u8>, i: int)
    requires
        0 <= i <= s.len(),
        forall|k: int| 0 <= k < i ==> s[k] != NEWLINE,
        i < s.len() ==> s[i] == NEWLINE,
    ensures
        first_newline(s) == i,
{
    lemma_first_newline(s);
}

/// A fixed-capacity rolling read buffer for socket data.
///
/// The view is the sequence of buffered bytes that have not been consumed yet.
/// The invariant keeps the two indices in order and puts an empty buffer at the
/// front of its storage, so that a buffer has room exactly when its view is
/// shorter than its capacity.
pub struct SocketBuffer<const N: usize> {
    /// Backing buffer.
    data: [u8; N],
    /// Index of the first valid byte.
    start: usize,
    /// Index of the last valid byte + 1.
    end: usize,
}

impl<const N: usize> View for SocketBuffer<N> {
    type V = Seq<u8>;

    closed spec fn view(&self) -> Seq<u8> {
        self.data@.subrange(self.start as int, self.end as int)
    }
}

impl<const N: usize> SocketBuffer<N> {
    #[verifier::type_invariant]
    spec fn bounds(self) -> bool {
        &&& self.start <= self.end <= N
        &&& self.start == self.end ==> self.start == 0
    }

    /// Number of consumed bytes that still take up room at the front.
    pub closed spec fn consumed(&self) -> nat {
        self.start as nat
    }

    /// The bytes of the free space at the tail, whatever they are.
    pub closed spec fn spare(&self) -> Seq<u8> {
        self.data@.subrange(self.end as int, N as int)
    }

    /// An empty buffer.
    pub fn new() -> (buf: Self)
        ensures
            buf@ == Seq::<u8>::empty(),
            buf.consumed() == 0,
            buf.spare().len() == N,
    {
        SocketBuffer { data: [0u8; N], start: 0, end: 0 }
    }

    /// Total capacity of the buffer in bytes: what is consumed, what is buffered
    /// and what is free add up to it.
    pub fn capacity(&self) -> (n: usize)
        ensures
            n == N,
            self.consumed() + self@.len() + self.spare().len() == n,
            self@.len() == 0 ==> self.consumed() == 0,
    {
        proof {
            use_type_invariant(self);
        }
        N
    }

    /// Index of the first valid byte.
    pub fn start(&self) -> (i: usize)
        ensures
            i == self.consumed(),
    {
        self.start
    }

    /// Index of the last valid byte + 1.
    pub fn end(&self) -> (i: usize)
        ensures
            i == self.consumed() + self@.len(),
    {
        proof {
            use_type_invariant(self);
        }
        self.end
    }

    /// Returns the valid (unconsumed) bytes currently buffered.
    pub fn data(&self) -> (bytes: &[u8])
        ensures
            bytes@ == self@,
            bytes@.len() <= N,
    {
        proof {
            use_type_invariant(self);
        }
        &self.data[self.start..self.end]
    }

    /// Removes all data from the buffer.
    pub fn clear(&mut self)
        ensures
            final(self)@ == Seq::<u8>::empty(),
            final(self).consumed() == 0,
            final(self).spare().len() == N,
    {
        proof {
            use_type_invariant(&*self);
        }
        self.start = 0;
        self.end = 0;
    }

    /// Try to make space if not already available and report true for success.
    ///
    /// There is space after the call unless unconsumed bytes fill the buffer.
    pub fn make_space(&mut self) -> (available: bool)
        ensures
            available == (old(self)@.len() < N),
            available == (final(self).spare().len() > 0),
            final(self)@ == old(self)@,
            old(self).spare().len() > 0 ==> *final(self) == *old(self),
            old(self).spare().len() == 0 ==> {
                &&& final(self).consumed() == 0
                &&& final(self).spare().len() == N - old(self)@.len()
            },
    {
        proof {
            use_type_invariant(&*self);
        }
        if self.end == N {
            self.compact();
        }
        proof {
            use_type_invariant(&*self);
        }
        self.end != N
    }

    /// Compacts the buffer so that valid data starts at index 0.
    pub fn compact(&mut self)
        ensures
            final(self)@ == old(self)@,
            final(self).consumed() == 0,
            final(self).spare().len() == N - old(self)@.len(),
            old(self).consumed() == 0 ==> *final(self) == *old(self),
    {
        proof {
            use_type_invariant(&*self);
        }
        if self.start == 0 {
            // We are done already.
            return;
        }
        let from: usize = self.start;
        let len: usize = self.end - self.start;
        // Move remaining data to beginning.
        let mut i: usize = 0;
        while i < len
            invariant
                0 < from <= old(self).end <= N,
                from == old(self).start,
                self.start == from,
                self.end == old(self).end,
                len == old(self).end - from,
                len > 0,
                i <= len,
                forall|k: int| 0 <= k < i ==> self.data@[k] == old(self).data@[from + k],
                forall|k: int| i <= k < N ==> self.data@[k] == old(self).data@[k],
            decreases len - i,
        {
            let byte: u8 = self.data[from + i];
            self.data[i] = byte;
            i = i + 1;
        }
        self.start = 0;
        self.end = len;
        assert(self@ =~= old(self)@);
    }

    /// Returns the free space at the tail into which new bytes can be written.
    pub fn spare_slice_mut(&mut self) -> (free: &mut [u8])
        ensures
            free@ == old(self).spare(),
            final(self)@ == old(self)@,
            final(self).consumed() == old(self).consumed(),
            final(self).spare() == final(free)@,
    {
        proof {
            use_type_invariant(&*self);
        }
        let end: usize = self.end;
        let all: &mut [u8] = &mut self.data;
        let (front, tail) = all.split_at_mut(end);
        assert(after_borrow(self).data@ == front@ + final(tail)@);
        assert(after_borrow(self).data@.len() == N);
        assert((front@ + final(tail)@).subrange(end as int, N as int) == final(tail)@);
        tail
    }

    /// Marks `n` freshly written tail bytes as valid.
    pub fn advance_by(&mut self, n: usize)
        requires
            n <= old(self).spare().len(),
        ensures
            final(self)@ == old(self)@ + old(self).spare().take(n as int),
            final(self).consumed() == old(self).consumed(),
            final(self).spare() == old(self).spare().skip(n as int),
    {
        proof {
            use_type_invariant(&*self);
        }
        self.end += n;
        assert(self@ =~= old(self)@ + old(self).spare().take(n as int));
        assert(self.spare() =~= old(self).spare().skip(n as int));
    }

    /// Returns the next newline-terminated line (including the trailing `\n`)
    /// without consuming it, or `None` if no complete line is buffered yet.
    pub fn peek_line(&self) -> (line: Option<&[u8]>)
        ensures
            match line {
                Some(bytes) => first_line(self@) == Some(bytes@),
                None => first_line(self@) is None,
            },
    {
        proof {
            use_type_invariant(self);
        }
        let mut rel: usize = 0;
        let len: usize = self.end - self.start;
        while rel < len
            invariant
                self.start + len == self.end,
                self.end <= N,
                rel <= len,
                forall|k: int| 0 <= k < rel ==> self@[k] != NEWLINE,
            decreases len - rel,
        {
            if self.data[self.start + rel] == NEWLINE {
                proof {
                    lemma_first_newline_at(self@, rel as int);
                }
                let line = &self.data[self.start..self.start + rel + 1];
                assert(line@ =~= self@.take(rel + 1));
                return Some(line);
            }
            rel = rel + 1;
        }
        proof {
            lemma_first_newline_at(self@, rel as int);
        }
        None
    }

    /// Consumes `n` bytes from the head of the buffer.
    ///
    /// A buffer that is drained starts again at the front of its storage.
    pub fn consume(&mut self, n: usize)
        requires
            n <= old(self)@.len(),
        ensures
            final(self)@ == old(self)@.skip(n as int),
            final(self).consumed() == (if n < old(self)@.len() {
                old(self).consumed() + n
            } else {
                0
            }),
            n < old(self)@.len() ==> final(self).spare() == old(self).spare(),
            n == old(self)@.len() ==> final(self).spare().len() == N,
    {
        proof {
            use_type_invariant(&*self);
        }
        if n >= self.end - self.start {
            self.clear();
        } else {
            self.start += n;
        }
        assert(self@ =~= old(self)@.skip(n as int));
    }
}

/// A first line is a prefix that ends in the only newline it holds.
pub proof fn law_first_line(buffered: Seq<u8>)
    ensures
        match first_line(buffered) {
            Some(line) => {
                &&& 0 < line.len() <= buffered.len()
                &&& line == buffered.take(line.len() as int)
                &&& line.last() == NEWLINE
                &&& !line.drop_last().contains(NEWLINE)
            },
            None => !buffered.contains(NEWLINE),
        },
{
    lemma_first_newline(buffered);
}

/// Bytes that arrive later do not change the first line once it is complete.
pub proof fn law_first_line_stable(buffered: Seq<u8>, more: Seq<u8>)
    requires
        first_line(buffered) is Some,
    ensures
        first_line(buffered + more) == first_line(buffered),
{
    lemma_first_newline(buffered);
    lemma_first_newline_at(buffered + more, first_newline(buffered));
    assert((buffered + more).take(first_newline(buffered) + 1) =~= buffered.take(
        first_newline(buffered) + 1,
    ));
}

/// What is left once the complete lines are taken off is the end of what was buffered, and
/// holds no complete line.
pub proof fn law_no_complete_line_left(buffered: Seq<u8>)
    ensures
        first_line(incomplete_line(buffered)) is None,
        incomplete_line(buffered).len() <= buffered.len(),
        incomplete_line(buffered) == buffered.skip(
            buffered.len() - incomplete_line(buffered).len(),
        ),
    decreases buffered.len(),
{
    lemma_first_newline(buffered);
    if let Some(line) = first_line(buffered) {
        let rest = buffered.skip(line.len() as int);
        law_no_complete_line_left(rest);
        assert(rest.skip(rest.len() - incomplete_line(rest).len()) =~= buffered.skip(
            buffered.len() - incomplete_line(buffered).len(),
        ));
    } else {
        assert(buffered.skip(0) =~= buffered);
    }
}

/// Nothing is lost between lines: the complete lines, in order, and what is left make up
/// what was buffered.
pub proof fn law_lines_make_up_buffer(buffered: Seq<u8>)
    ensures
        lines(buffered).flatten() + incomplete_line(buffered) == buffered,
        forall|k: int|
            0 <= k < lines(buffered).len() ==> {
                let line = #[trigger] lines(buffered)[k];
                line.len() > 0 && line.last() == NEWLINE && !line.drop_last().contains(NEWLINE)
            },
    decreases buffered.len(),
{
    lemma_first_newline(buffered);
    if let Some(line) = first_line(buffered) {
        let rest = buffered.skip(line.len() as int);
        law_lines_make_up_buffer(rest);
        law_first_line(buffered);
        assert forall|k: int| 0 <= k < lines(buffered).len() implies {
            let line = #[trigger] lines(buffered)[k];
            line.len() > 0 && line.last() == NEWLINE && !line.drop_last().contains(NEWLINE)
        } by {
            if k > 0 {
                assert(lines(buffered)[k] == lines(rest)[k - 1]);
            }
        }
        assert(lines(buffered).drop_first() =~= lines(rest));
        assert(line + (lines(rest).flatten() + incomplete_line(rest)) =~= buffered);
        assert(lines(buffered).flatten() + incomplete_line(buffered) =~= buffered);
    } else {
        assert(lines(buffered).flatten() =~= Seq::empty());
        assert(Seq::<u8>::empty() + buffered =~= buffered);
    }
}

} // verus!
