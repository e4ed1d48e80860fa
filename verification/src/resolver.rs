//! The remote archive resolver, as a state machine: it decides, from each
//! transport response, which request to issue next, and hands each fetched
//! byte window to the archive format reader. The driver that actually talks
//! to the network performs each returned action and feeds the outcome back.

use vstd::prelude::*;
use crate::errors::ResolveError;
use crate::sequencer::PartialRangeIter;
use crate::sequencer::RangeDescriptor;
use crate::sequencer::descriptor_seq;

verus! {

/// The closed set of content classifications the resolver recognizes.
#[derive(Clone, Copy, Debug, PartialEq, Eq, Structural)]
pub enum ContentKind {
    /// The declared kind of a zip archive.
    ArchiveZip,
    /// Any other declared kind.
    Other,
}

/// The declared kind of a zip archive, as transports spell it.
pub open spec fn archive_mime() -> Seq<char> {
    "application/zip"@
}

/// Classify a declared content type against the recognized kinds.
pub fn classify_content_type(content_type: &String) -> (r: ContentKind)
    ensures
        r is ArchiveZip <==> content_type@ == archive_mime(),
{
    let expected = String::from_str("application/zip");
    if *content_type == expected {
        ContentKind::ArchiveZip
    } else {
        ContentKind::Other
    }
}

/// The names of the entries a zip archive reader recovers from a byte
/// buffer, in the order the archive's central directory lists them; `None`
/// when the buffer cannot be read as a zip archive. Both the outcome and the
/// names depend on the bytes alone.
pub uninterp spec fn zip_entry_names(bytes: Seq<u8>) -> Option<Seq<Seq<char>>>;

/// Relies on zip::ZipArchive::new and zip::ZipArchive::file_names: parsing an
/// in-memory buffer either fails or yields the entry names in
/// central-directory order, deterministically from the bytes alone.
#[verifier::external_body]
fn read_zip_entry_names(bytes: Vec<u8>) -> (r: Option<Vec<String>>)
    ensures
        r is Some <==> zip_entry_names(bytes@) is Some,
        r matches Some(names) ==> names.deep_view() == zip_entry_names(bytes@).unwrap(),
{
    let cursor = std::io::Cursor::new(bytes);
    match zip::ZipArchive::new(cursor) {
        Ok(archive) => Some(archive.file_names().map(|n| n.to_string()).collect()),
        Err(_) => None,
    }
}

/// Where a resolution stands: which response it is waiting for, or how it
/// ended.
#[derive(Clone, Copy, Debug, PartialEq, Eq, Structural)]
pub enum Phase {
    /// Waiting for the metadata-only probe's outcome.
    AwaitProbe,
    /// Waiting for the resource's total length.
    AwaitLength,
    /// Waiting for the outcome of the range request last issued.
    AwaitRange,
    /// The resolution completed.
    Done,
    /// The resolution aborted.
    Failed,
}

/// What the driver must do next.
#[derive(Debug)]
pub enum Action {
    /// Issue the metadata-only probe request.
    IssueProbe,
    /// Issue the content-bearing request that reports the total length.
    IssueLengthQuery,
    /// Issue a range-qualified content request for the given window.
    IssueRange(RangeDescriptor),
    /// The resolution succeeded with these entry names; stop.
    Finish(Vec<String>),
    /// The resolution failed; stop and surface the error.
    Fail(ResolveError),
}

/// The resolver's decision state. One resolution drives one resolver from
/// `AwaitProbe` to `Done` or `Failed`; nothing is shared across resolutions.
#[derive(Debug)]
pub struct Resolver {
    /// The least total length that can hold the format's end-of-index
    /// marker; anything shorter is rejected.
    pub min_length: u64,
    /// The widest window any single range request may cover.
    pub chunk_size: u32,
    /// Which response the resolver is waiting for.
    pub phase: Phase,
    /// The windows still to fetch; meaningful only while `phase` is
    /// `AwaitRange`.
    pub iter: PartialRangeIter,
}

impl Resolver {
    /// What construction establishes and every step preserves.
    pub open spec fn inv(self) -> bool {
        &&& self.min_length >= 1
        &&& self.chunk_size >= 1
        &&& self.iter.wf()
    }

    /// The windows still to fetch.
    pub open spec fn pending(self) -> Seq<(int, int)> {
        self.iter@
    }

    /// Construct a resolver that rejects resources shorter than `min_length`
    /// and fetches the resource's tail in windows at most `chunk_size` wide.
    /// A chunk size of zero is a configuration error, caught before any
    /// request is issued.
    pub fn new(min_length: u64, chunk_size: u32) -> (r: Result<Resolver, ResolveError>)
        requires
            min_length >= 1,
        ensures
            chunk_size == 0 ==> (r matches Err(e) && e == ResolveError::InvalidChunkSize),
            chunk_size >= 1 ==> (r matches Ok(res) && res.inv() && res.min_length == min_length
                && res.chunk_size == chunk_size && res.phase is AwaitProbe),
    {
        if chunk_size == 0 {
            Err(ResolveError::InvalidChunkSize)
        } else {
            Ok(
                Resolver {
                    min_length,
                    chunk_size,
                    phase: Phase::AwaitProbe,
                    iter: PartialRangeIter { start: 1, end: 0, buffer_size: 1 },
                },
            )
        }
    }

    /// The first step of a resolution: probe the resource's metadata.
    pub fn start(&self) -> (a: Action)
        requires
            self.phase is AwaitProbe,
        ensures
            a is IssueProbe,
    {
        Action::IssueProbe
    }

    /// Consume the probe's outcome: the declared content type, if any. A
    /// missing declaration or a non-archive kind ends the resolution; the
    /// archive kind leads to the length query.
    pub fn on_probe(&mut self, content_type: Option<String>) -> (a: Action)
        requires
            old(self).inv(),
            old(self).phase is AwaitProbe,
        ensures
            final(self).inv(),
            final(self).min_length == old(self).min_length,
            final(self).chunk_size == old(self).chunk_size,
            content_type is None ==> (a matches Action::Fail(e) && e
                == ResolveError::MissingContentType && final(self).phase is Failed),
            content_type matches Some(ct) ==> ({
                &&& ct@ != archive_mime() ==> (a matches Action::Fail(e) && e
                    == ResolveError::NotAnArchive && final(self).phase is Failed)
                &&& ct@ == archive_mime() ==> a is IssueLengthQuery
                    && final(self).phase is AwaitLength
            }),
    {
        match content_type {
            None => {
                self.phase = Phase::Failed;
                Action::Fail(ResolveError::MissingContentType)
            },
            Some(ct) => {
                match classify_content_type(&ct) {
                    ContentKind::ArchiveZip => {
                        self.phase = Phase::AwaitLength;
                        Action::IssueLengthQuery
                    },
                    ContentKind::Other => {
                        self.phase = Phase::Failed;
                        Action::Fail(ResolveError::NotAnArchive)
                    },
                }
            },
        }
    }

    /// Consume the reported total length. An unreported length or one below
    /// the minimum ends the resolution; otherwise the resolver plans the
    /// windows over the resource's tail — the last `min_length - 1` bytes —
    /// and asks for the first one (or finishes at once when the tail is
    /// empty).
    pub fn on_length(&mut self, length: Option<u64>) -> (a: Action)
        requires
            old(self).inv(),
            old(self).phase is AwaitLength,
        ensures
            final(self).inv(),
            final(self).min_length == old(self).min_length,
            final(self).chunk_size == old(self).chunk_size,
            length is None ==> (a matches Action::Fail(e) && e == ResolveError::UnknownLength
                && final(self).phase is Failed),
            length matches Some(l) ==> l < old(self).min_length ==> (a matches Action::Fail(e) && e
                == ResolveError::ResourceTooSmall && final(self).phase is Failed),
            length matches Some(l) ==> l >= old(self).min_length ==> ({
                let descs = descriptor_seq(
                    l - old(self).min_length + 1,
                    l - 1,
                    old(self).chunk_size as int,
                );
                &&& descs.len() == 0 ==> (a matches Action::Finish(es) && es@.len() == 0
                    && final(self).phase is Done)
                &&& descs.len() > 0 ==> (a matches Action::IssueRange(d) && (
                d.start as int,
                d.end as int,
                ) == descs[0] && final(self).phase is AwaitRange && final(self).pending()
                    == descs.drop_first())
            }),
    {
        match length {
            None => {
                self.phase = Phase::Failed;
                Action::Fail(ResolveError::UnknownLength)
            },
            Some(l) => {
                if l < self.min_length {
                    self.phase = Phase::Failed;
                    Action::Fail(ResolveError::ResourceTooSmall)
                } else {
                    let range_start = l - (self.min_length - 1);
                    let range_end = l - 1;
                    match PartialRangeIter::new(range_start, range_end, self.chunk_size) {
                        Err(e) => {
                            // the resolver's own chunk size is positive, so
                            // the sequencer's one construction error cannot
                            // arise here
                            proof {
                                assert(false);
                            }
                            self.phase = Phase::Failed;
                            Action::Fail(e)
                        },
                        Ok(mut it) => {
                            match it.next() {
                                Some(d) => {
                                    self.iter = it;
                                    self.phase = Phase::AwaitRange;
                                    Action::IssueRange(d)
                                },
                                None => {
                                    self.phase = Phase::Done;
                                    Action::Finish(Vec::new())
                                },
                            }
                        },
                    }
                }
            },
        }
    }

    /// Consume one range request's outcome: the response status and body. A
    /// status other than full or partial content aborts; a body the archive
    /// reader cannot parse aborts; otherwise the recovered entry names
    /// either accompany the next window's request or, after the last window,
    /// finish the resolution.
    pub fn on_range(&mut self, status: u16, body: Vec<u8>) -> (a: Action)
        requires
            old(self).inv(),
            old(self).phase is AwaitRange,
        ensures
            final(self).inv(),
            final(self).min_length == old(self).min_length,
            final(self).chunk_size == old(self).chunk_size,
            !(status == 200 || status == 206) ==> (a matches Action::Fail(e) && e
                == ResolveError::UnexpectedStatus(status) && final(self).phase is Failed),
            ((status == 200 || status == 206) && zip_entry_names(body@) is None) ==> (a
                matches Action::Fail(e) && e == ResolveError::ArchiveParseError
                && final(self).phase is Failed),
            ((status == 200 || status == 206) && zip_entry_names(body@) is Some) ==> ({
                let rem = old(self).pending();
                let names = zip_entry_names(body@).unwrap();
                &&& rem.len() == 0 ==> (a matches Action::Finish(es) && es.deep_view() == names
                    && final(self).phase is Done)
                &&& rem.len() > 0 ==> (a matches Action::IssueRange(d) && (
                d.start as int,
                d.end as int,
                ) == rem[0] && final(self).phase is AwaitRange && final(self).pending()
                    == rem.drop_first())
            }),
    {
        if !(status == 200 || status == 206) {
            self.phase = Phase::Failed;
            return Action::Fail(ResolveError::UnexpectedStatus(status));
        }
        match read_zip_entry_names(body) {
            None => {
                self.phase = Phase::Failed;
                Action::Fail(ResolveError::ArchiveParseError)
            },
            Some(names) => {
                match self.iter.next() {
                    Some(d) => {
                        self.phase = Phase::AwaitRange;
                        Action::IssueRange(d)
                    },
                    None => {
                        self.phase = Phase::Done;
                        Action::Finish(names)
                    },
                }
            },
        }
    }

    /// The windows the resolver plans over a resource of length `l` exactly
    /// cover the resource's tail — the closed interval
    /// `[l - (min_length - 1), l - 1]`: contiguous, non-overlapping, each at
    /// most `chunk` wide, the first starting and the last ending at the
    /// tail's bounds. (With `min_length == 1` the tail is empty and no
    /// window is planned at all.)
    pub proof fn lemma_tail_windows_cover(l: int, min_length: int, chunk: int)
        requires
            min_length >= 2,
            chunk >= 1,
            l >= min_length,
        ensures
            ({
                let s = descriptor_seq(l - min_length + 1, l - 1, chunk);
                &&& s.len() > 0
                &&& s[0].0 == l - min_length + 1
                &&& s[s.len() - 1].1 == l - 1
                &&& forall|i: int|
                    0 <= i < s.len() ==> s[i].0 <= s[i].1 && s[i].1 - s[i].0 + 1 <= chunk
                &&& forall|i: int| 0 <= i < s.len() - 1 ==> s[i + 1].0 == s[i].1 + 1
            }),
    {
        crate::sequencer::lemma_descriptors_cover(l - min_length + 1, l - 1, chunk);
    }

    /// Record that the transport itself failed; the resolution aborts.
    pub fn on_transport_error(&mut self) -> (a: Action)
        requires
            old(self).inv(),
        ensures
            final(self).inv(),
            a matches Action::Fail(e) && e == ResolveError::TransportError,
            final(self).phase is Failed,
    {
        self.phase = Phase::Failed;
        Action::Fail(ResolveError::TransportError)
    }
}

} // verus!
