//! The range sequencer: given an inclusive byte interval and a chunk size,
//! it produces, one per step, the contiguous sub-intervals that cover the
//! interval with windows at most one chunk wide.

use vstd::prelude::*;
use crate::decimal::dec_digits;
use crate::decimal::u64_to_dec;
use crate::errors::ResolveError;

verus! {

/// One transport-addressable request for the inclusive byte interval
/// `[start, end]` of a resource.
#[derive(Clone, Copy, Debug, PartialEq, Eq, Structural)]
pub struct RangeDescriptor {
    pub start: u64,
    pub end: u64,
}

/// The textual form of a byte-range request for `[start, end]`.
pub open spec fn range_header_spec(start: nat, end: nat) -> Seq<char> {
    "bytes="@ + dec_digits(start) + "-"@ + dec_digits(end)
}

impl RangeDescriptor {
    /// Render this descriptor in the transport's textual range syntax,
    /// "bytes=START-END".
    pub fn header_value(&self) -> (r: String)
        ensures
            r@ == range_header_spec(self.start as nat, self.end as nat),
    {
        let mut s = String::from_str("bytes=");
        let a = u64_to_dec(self.start);
        s.append(a.as_str());
        s.append("-");
        let b = u64_to_dec(self.end);
        s.append(b.as_str());
        s
    }
}

/// The whole list of sub-intervals, as inclusive `(start, end)` pairs, that
/// covering `[start, end]` with windows at most `chunk` wide yields: each
/// window advances the cursor by `min(chunk, end - start + 1)` until the
/// cursor passes `end`. Empty when `start > end` or `chunk <= 0`.
pub open spec fn descriptor_seq(start: int, end: int, chunk: int) -> Seq<(int, int)>
    decreases end - start + 1,
{
    if chunk <= 0 || start > end {
        Seq::empty()
    } else {
        let step = if chunk <= end - start + 1 {
            chunk
        } else {
            end - start + 1
        };
        seq![(start, start + step - 1)] + descriptor_seq(start + step, end, chunk)
    }
}

/// A lazy, non-restartable walk over the descriptors of one byte interval.
#[derive(Debug)]
pub struct PartialRangeIter {
    pub start: u64,
    pub end: u64,
    pub buffer_size: u32,
}

impl PartialRangeIter {
    /// The sequencer stays usable: a positive chunk width, and room above
    /// `end` for the cursor to pass it.
    pub open spec fn wf(self) -> bool {
        self.buffer_size >= 1 && self.end < u64::MAX
    }
}

impl View for PartialRangeIter {
    type V = Seq<(int, int)>;

    /// The descriptors this sequencer has yet to produce.
    open spec fn view(&self) -> Seq<(int, int)> {
        descriptor_seq(self.start as int, self.end as int, self.buffer_size as int)
    }
}

impl PartialRangeIter {
    /// Construct a sequencer over `[start, end]` with windows at most
    /// `buffer_size` wide. A chunk size of zero is a configuration error.
    pub fn new(start: u64, end: u64, buffer_size: u32) -> (r: Result<Self, ResolveError>)
        requires
            end < u64::MAX,
        ensures
            buffer_size == 0 ==> r == Result::<Self, ResolveError>::Err(
                ResolveError::InvalidChunkSize,
            ),
            buffer_size >= 1 ==> (r matches Ok(it) && it == (PartialRangeIter {
                start,
                end,
                buffer_size,
            }) && it.wf()),
    {
        if buffer_size == 0 {
            Err(ResolveError::InvalidChunkSize)
        } else {
            Ok(PartialRangeIter { start, end, buffer_size })
        }
    }

    /// Produce the next descriptor and advance the cursor past it; `None`
    /// once the cursor has passed the interval's end.
    pub fn next(&mut self) -> (r: Option<RangeDescriptor>)
        requires
            old(self).wf(),
        ensures
            final(self).wf(),
            final(self).end == old(self).end,
            final(self).buffer_size == old(self).buffer_size,
            old(self)@.len() == 0 ==> r is None && *final(self) == *old(self),
            old(self)@.len() > 0 ==> (r matches Some(d) && (d.start as int, d.end as int) == old(
                self,
            )@[0] && final(self)@ == old(self)@.drop_first()),
    {
        if self.start > self.end {
            None
        } else {
            let prev_start = self.start;
            let remaining = self.end - self.start;
            let step: u64 = if (self.buffer_size as u64) <= remaining {
                self.buffer_size as u64
            } else {
                remaining + 1
            };
            self.start = prev_start + step;
            proof {
                assert(self@ =~= old(self)@.drop_first());
            }
            Some(RangeDescriptor { start: prev_start, end: prev_start + step - 1 })
        }
    }
}

/// Over any interval `[start, end]` with `start <= end` and a positive chunk
/// width, the produced descriptors exactly reconstruct the interval: the
/// first begins at `start`, the last ends at `end`, every window is non-empty
/// and at most `chunk` wide, and each window begins right after the one
/// before it — no gaps, no overlaps.
pub proof fn lemma_descriptors_cover(start: int, end: int, chunk: int)
    requires
        chunk > 0,
        start <= end,
    ensures
        ({
            let s = descriptor_seq(start, end, chunk);
            &&& s.len() > 0
            &&& s[0].0 == start
            &&& s[s.len() - 1].1 == end
            &&& forall|i: int|
                0 <= i < s.len() ==> s[i].0 <= s[i].1 && s[i].1 - s[i].0 + 1 <= chunk
            &&& forall|i: int| 0 <= i < s.len() - 1 ==> s[i + 1].0 == s[i].1 + 1
        }),
    decreases end - start + 1,
{
    let s = descriptor_seq(start, end, chunk);
    let step = if chunk <= end - start + 1 {
        chunk
    } else {
        end - start + 1
    };
    let rest = descriptor_seq(start + step, end, chunk);
    if start + step <= end {
        lemma_descriptors_cover(start + step, end, chunk);
        assert(s[s.len() - 1].1 == rest[rest.len() - 1].1);
        assert forall|i: int| 0 <= i < s.len() implies s[i].0 <= s[i].1 && s[i].1 - s[i].0 + 1
            <= chunk by {
            if i > 0 {
                assert(s[i] == rest[i - 1]);
            }
        }
        assert forall|i: int| 0 <= i < s.len() - 1 implies s[i + 1].0 == s[i].1 + 1 by {
            if i > 0 {
                assert(s[i] == rest[i - 1]);
                assert(s[i + 1] == rest[i]);
            } else {
                assert(s[1] == rest[0]);
            }
        }
    } else {
        assert(rest =~= Seq::<(int, int)>::empty());
        assert(s.len() == 1);
        assert(s[0] == (start, start + step - 1));
    }
}

/// An inverted interval (`start > end`) yields no descriptors at all.
pub proof fn lemma_inverted_interval_empty(start: int, end: int, chunk: int)
    requires
        start > end,
    ensures
        descriptor_seq(start, end, chunk).len() == 0,
{
}

/// The sequencer is a pure generator: two sequencers over the same interval
/// with the same chunk width have the same descriptors left to produce.
pub proof fn lemma_deterministic(a: PartialRangeIter, b: PartialRangeIter)
    requires
        a.start == b.start,
        a.end == b.end,
        a.buffer_size == b.buffer_size,
    ensures
        a@ == b@,
{
}

} // verus!
