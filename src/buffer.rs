//! The buffer capability and its two adapters.
//!
//! A buffer is anything a DMA leg can read from or write to: it has an
//! address, a length in beats and an increment policy. The register adapter
//! stands for a fixed peripheral data register; the slice adapters stand for
//! a memory region given by its start and end addresses.
use vstd::arithmetic::div_mod::{lemma_div_by_multiple, lemma_mod_multiples_basic};
use vstd::prelude::*;

verus! {

/// The atomic unit that one DMA beat moves.
#[derive(Clone, Copy, Debug, PartialEq, Eq, Structural)]
pub enum BeatSize {
    Byte,
    HalfWord,
    Word,
}

/// Width of a beat in bytes.
pub open spec fn beat_bytes(b: BeatSize) -> nat {
    match b {
        BeatSize::Byte => 1,
        BeatSize::HalfWord => 2,
        BeatSize::Word => 4,
    }
}

impl BeatSize {
    /// Width of this beat in bytes.
    pub fn bytes(&self) -> (r: usize)
        ensures
            r as nat == beat_bytes(*self),
    {
        match self {
            BeatSize::Byte => 1,
            BeatSize::HalfWord => 2,
            BeatSize::Word => 4,
        }
    }
}

/// What a DMA leg needs to know about one of its two ends.
pub trait Buffer {
    /// The address handed to the DMA descriptor.
    spec fn spec_dma_ptr(&self) -> usize;

    /// Whether successive beats use successive addresses.
    spec fn spec_incrementing(&self) -> bool;

    /// Number of beats in the buffer.
    spec fn spec_buffer_len(&self) -> nat;

    /// Width of one beat.
    spec fn spec_beat(&self) -> BeatSize;

    /// Whether the DMA controller may write into the buffer.
    spec fn spec_writable(&self) -> bool;

    fn dma_ptr(&self) -> (r: usize)
        ensures
            r == self.spec_dma_ptr(),
    ;

    fn incrementing(&self) -> (r: bool)
        ensures
            r == self.spec_incrementing(),
            r ==> self.spec_buffer_len() > 1,
    ;

    fn buffer_len(&self) -> (r: usize)
        ensures
            r as nat == self.spec_buffer_len(),
    ;

    fn beat_size(&self) -> (r: BeatSize)
        ensures
            r == self.spec_beat(),
    ;
}

/// A fixed peripheral data register seen as a one-beat, non-incrementing
/// buffer.
#[derive(Clone, Copy, Debug, PartialEq, Eq, Structural)]
pub struct SercomPtr {
    pub addr: usize,
    pub beat: BeatSize,
}

impl SercomPtr {
    pub fn new(addr: usize, beat: BeatSize) -> (r: SercomPtr)
        ensures
            r.addr == addr,
            r.beat == beat,
    {
        SercomPtr { addr, beat }
    }
}

impl Buffer for SercomPtr {
    open spec fn spec_dma_ptr(&self) -> usize {
        self.addr
    }

    open spec fn spec_incrementing(&self) -> bool {
        false
    }

    open spec fn spec_buffer_len(&self) -> nat {
        1
    }

    open spec fn spec_beat(&self) -> BeatSize {
        self.beat
    }

    open spec fn spec_writable(&self) -> bool {
        true
    }

    fn dma_ptr(&self) -> (r: usize) {
        self.addr
    }

    fn incrementing(&self) -> (r: bool) {
        false
    }

    fn buffer_len(&self) -> (r: usize) {
        1
    }

    fn beat_size(&self) -> (r: BeatSize) {
        self.beat
    }
}

/// A memory region `[start, end)` holds whole beats.
pub open spec fn region_wf(start: usize, end: usize, beat: BeatSize) -> bool {
    &&& start <= end
    &&& (end - start) as nat % beat_bytes(beat) == 0
}

/// Number of beats in the region `[start, end)`.
pub open spec fn region_len(start: usize, end: usize, beat: BeatSize) -> nat {
    ((end - start) as nat / beat_bytes(beat)) as nat
}

/// The descriptor address of a region: DMA descriptors name the end of an
/// incrementing region and the single location of a one-beat region.
pub open spec fn region_dma_ptr(start: usize, end: usize, beat: BeatSize) -> usize {
    if region_len(start, end, beat) > 1 {
        end
    } else {
        start
    }
}

fn beats_between(start: usize, end: usize, beat: BeatSize) -> (r: usize)
    requires
        start <= end,
    ensures
        r as nat == region_len(start, end, beat),
{
    (end - start) / beat.bytes()
}

fn end_of(start: usize, len: usize, beat: BeatSize) -> (r: usize)
    requires
        start + len * beat_bytes(beat) <= usize::MAX,
    ensures
        region_wf(start, r, beat),
        region_len(start, r, beat) == len,
        r - start == len * beat_bytes(beat),
{
    let bytes = beat.bytes();
    proof {
        lemma_div_by_multiple(len as int, bytes as int);
        lemma_mod_multiples_basic(len as int, bytes as int);
    }
    start + len * bytes
}

/// A memory region that the DMA controller may only read from.
///
/// It is built from the region's start and end addresses and does not track
/// how long the region lives: the caller keeps the region alive and
/// unmodified until the transfer that reads it has stopped. Its contract
/// makes it unwritable, so it can never stand as a transfer destination.
pub struct SharedSliceBuffer {
    start: usize,
    end: usize,
    beat: BeatSize,
}

impl SharedSliceBuffer {
    #[verifier::type_invariant]
    spec fn inv(self) -> bool {
        region_wf(self.start, self.end, self.beat)
    }

    pub closed spec fn start(&self) -> usize {
        self.start
    }

    pub closed spec fn end(&self) -> usize {
        self.end
    }

    /// Adapter over `len` beats starting at address `start`.
    pub fn from_slice(start: usize, len: usize, beat: BeatSize) -> (r: SharedSliceBuffer)
        requires
            start + len * beat_bytes(beat) <= usize::MAX,
        ensures
            r.start() == start,
            r.spec_buffer_len() == len,
            r.spec_beat() == beat,
            r.end() - start == len * beat_bytes(beat),
    {
        let end = end_of(start, len, beat);
        SharedSliceBuffer { start, end, beat }
    }

    /// Adapter over the region `[start, end)`, which the caller guarantees
    /// holds whole beats.
    pub fn from_slice_unchecked(start: usize, end: usize, beat: BeatSize) -> (r: SharedSliceBuffer)
        requires
            region_wf(start, end, beat),
        ensures
            r.start() == start,
            r.end() == end,
            r.spec_beat() == beat,
    {
        SharedSliceBuffer { start, end, beat }
    }
}

impl Buffer for SharedSliceBuffer {
    closed spec fn spec_dma_ptr(&self) -> usize {
        region_dma_ptr(self.start, self.end, self.beat)
    }

    closed spec fn spec_incrementing(&self) -> bool {
        region_len(self.start, self.end, self.beat) > 1
    }

    closed spec fn spec_buffer_len(&self) -> nat {
        region_len(self.start, self.end, self.beat)
    }

    closed spec fn spec_beat(&self) -> BeatSize {
        self.beat
    }

    open spec fn spec_writable(&self) -> bool {
        false
    }

    fn dma_ptr(&self) -> (r: usize) {
        if self.incrementing() {
            self.end
        } else {
            self.start
        }
    }

    fn incrementing(&self) -> (r: bool) {
        self.buffer_len() > 1
    }

    fn buffer_len(&self) -> (r: usize) {
        proof {
            use_type_invariant(self);
        }
        beats_between(self.start, self.end, self.beat)
    }

    fn beat_size(&self) -> (r: BeatSize) {
        self.beat
    }
}

/// A memory region held exclusively by a transfer, which the DMA controller
/// may read or write.
///
/// It is built from the region's start and end addresses; the caller gives up
/// every other access to the region until the transfer has stopped.
pub struct MutSliceBuffer {
    start: usize,
    end: usize,
    beat: BeatSize,
}

impl MutSliceBuffer {
    #[verifier::type_invariant]
    spec fn inv(self) -> bool {
        region_wf(self.start, self.end, self.beat)
    }

    pub closed spec fn start(&self) -> usize {
        self.start
    }

    pub closed spec fn end(&self) -> usize {
        self.end
    }

    /// Adapter over `len` beats starting at address `start`.
    pub fn from_slice(start: usize, len: usize, beat: BeatSize) -> (r: MutSliceBuffer)
        requires
            start + len * beat_bytes(beat) <= usize::MAX,
        ensures
            r.start() == start,
            r.spec_buffer_len() == len,
            r.spec_beat() == beat,
            r.end() - start == len * beat_bytes(beat),
    {
        let end = end_of(start, len, beat);
        MutSliceBuffer { start, end, beat }
    }

    /// Adapter over the region `[start, end)`, which the caller guarantees
    /// holds whole beats.
    pub fn from_slice_unchecked(start: usize, end: usize, beat: BeatSize) -> (r: MutSliceBuffer)
        requires
            region_wf(start, end, beat),
        ensures
            r.start() == start,
            r.end() == end,
            r.spec_beat() == beat,
    {
        MutSliceBuffer { start, end, beat }
    }
}

impl Buffer for MutSliceBuffer {
    closed spec fn spec_dma_ptr(&self) -> usize {
        region_dma_ptr(self.start, self.end, self.beat)
    }

    closed spec fn spec_incrementing(&self) -> bool {
        region_len(self.start, self.end, self.beat) > 1
    }

    closed spec fn spec_buffer_len(&self) -> nat {
        region_len(self.start, self.end, self.beat)
    }

    closed spec fn spec_beat(&self) -> BeatSize {
        self.beat
    }

    open spec fn spec_writable(&self) -> bool {
        true
    }

    fn dma_ptr(&self) -> (r: usize) {
        if self.incrementing() {
            self.end
        } else {
            self.start
        }
    }

    fn incrementing(&self) -> (r: bool) {
        self.buffer_len() > 1
    }

    fn buffer_len(&self) -> (r: usize) {
        proof {
            use_type_invariant(self);
        }
        beats_between(self.start, self.end, self.beat)
    }

    fn beat_size(&self) -> (r: BeatSize) {
        self.beat
    }
}

/// A register adapter never increments and always holds exactly one beat,
/// whatever its beat width.
pub proof fn lemma_register_adapter_fixed(p: SercomPtr)
    ensures
        !p.spec_incrementing(),
        p.spec_buffer_len() == 1,
        p.spec_dma_ptr() == p.addr,
{
}

/// A shared-slice adapter increments exactly when it holds more than one
/// beat; its descriptor address is the region's end when it increments and
/// its start otherwise.
pub proof fn lemma_shared_slice_increments_iff_long(s: SharedSliceBuffer)
    ensures
        s.spec_incrementing() == (s.spec_buffer_len() > 1),
        s.spec_dma_ptr() == (if s.spec_buffer_len() > 1 { s.end() } else { s.start() }),
        !s.spec_writable(),
{
}

/// A shared-slice adapter built over `len` beats holds `len` beats and
/// increments exactly when `len > 1`.
pub proof fn lemma_shared_slice_from_len(start: usize, len: usize, beat: BeatSize, s: SharedSliceBuffer)
    requires
        s.start() == start,
        s.spec_beat() == beat,
        s.end() - start == len * beat_bytes(beat),
    ensures
        s.spec_buffer_len() == len,
        s.spec_incrementing() == (len > 1),
{
    lemma_div_by_multiple(len as int, beat_bytes(beat) as int);
}

/// An exclusive slice adapter increments exactly when it holds more than
/// one beat.
pub proof fn lemma_mut_slice_increments_iff_long(s: MutSliceBuffer)
    ensures
        s.spec_incrementing() == (s.spec_buffer_len() > 1),
        s.spec_dma_ptr() == (if s.spec_buffer_len() > 1 { s.end() } else { s.start() }),
        s.spec_writable(),
{
}

} // verus!
