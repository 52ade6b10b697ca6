//! The streaming scanner: a three-state machine over the bytes of a FASTA
//! file that tells header bytes from sequence bytes and accumulates the
//! total base count and the GC base count in one pass.

use vstd::prelude::*;

use crate::tables::ClassifierTable;
use crate::tables::is_alpha_byte;
use crate::tables::is_alpha_table;
use crate::tables::is_gc_byte;
use crate::tables::is_gc_table;

verus! {

/// Line feed, the line terminator of a FASTA file.
pub const NEWLINE: u8 = 10;

/// `>`, the byte that opens a FASTA header line.
pub const HEADER_MARK: u8 = 62;

/// The scanner's belief about the current byte's role in the FASTA grammar.
#[derive(Clone, Copy, PartialEq, Eq, Structural, Debug)]
pub enum ScanState {
    /// Inside a header line; bytes are never counted.
    InHeader,
    /// Just after a line terminator; the next byte decides header or sequence.
    AtLineStart,
    /// Inside a sequence line; bytes are classified and counted.
    InSequence,
}

/// The state after reading one byte in state `s`.
pub open spec fn next_state(s: ScanState, b: u8) -> ScanState {
    match s {
        ScanState::InHeader => if b == NEWLINE {
            ScanState::AtLineStart
        } else {
            ScanState::InHeader
        },
        ScanState::AtLineStart => if b == HEADER_MARK {
            ScanState::InHeader
        } else {
            ScanState::InSequence
        },
        ScanState::InSequence => if b == NEWLINE {
            ScanState::AtLineStart
        } else {
            ScanState::InSequence
        },
    }
}

/// Whether a byte read in state `s` is fed to the classifier tables.
/// Header bytes never are; at a line start every byte but `>` is, so the
/// first sequence byte of a line is not skipped; inside a sequence line
/// every byte but the terminator is.
pub open spec fn classified(s: ScanState, b: u8) -> bool {
    match s {
        ScanState::InHeader => false,
        ScanState::AtLineStart => b != HEADER_MARK,
        ScanState::InSequence => b != NEWLINE,
    }
}

/// How much one byte adds to the total base count.
pub open spec fn base_delta(s: ScanState, b: u8) -> nat {
    if classified(s, b) && is_alpha_byte(b) {
        1
    } else {
        0
    }
}

/// How much one byte adds to the GC base count.
pub open spec fn gc_delta(s: ScanState, b: u8) -> nat {
    if classified(s, b) && is_gc_byte(b) {
        1
    } else {
        0
    }
}

/// The state after reading all of `bytes`, starting from `s`.
pub open spec fn scan_state(s: ScanState, bytes: Seq<u8>) -> ScanState
    decreases bytes.len(),
{
    if bytes.len() == 0 {
        s
    } else {
        next_state(scan_state(s, bytes.drop_last()), bytes.last())
    }
}

/// The total base count accumulated over `bytes`, starting from `s`.
pub open spec fn scan_total(s: ScanState, bytes: Seq<u8>) -> nat
    decreases bytes.len(),
{
    if bytes.len() == 0 {
        0
    } else {
        scan_total(s, bytes.drop_last()) + base_delta(scan_state(s, bytes.drop_last()), bytes.last())
    }
}

/// The GC base count accumulated over `bytes`, starting from `s`.
pub open spec fn scan_gc(s: ScanState, bytes: Seq<u8>) -> nat
    decreases bytes.len(),
{
    if bytes.len() == 0 {
        0
    } else {
        scan_gc(s, bytes.drop_last()) + gc_delta(scan_state(s, bytes.drop_last()), bytes.last())
    }
}

/// One step of the state machine: from the current state and one byte to the
/// next state and the two count increments, read off the classifier tables.
/// Pure and free of I/O, so it can be exercised independently of file access.
pub fn step(s: ScanState, b: u8, alpha_tab: &ClassifierTable, gc_tab: &ClassifierTable) -> (r: (
    ScanState,
    u64,
    u64,
))
    requires
        is_alpha_table(*alpha_tab),
        is_gc_table(*gc_tab),
    ensures
        r.0 == next_state(s, b),
        r.1 == base_delta(s, b),
        r.2 == gc_delta(s, b),
{
    match s {
        ScanState::InHeader => {
            if b == NEWLINE {
                (ScanState::AtLineStart, 0, 0)
            } else {
                (ScanState::InHeader, 0, 0)
            }
        },
        ScanState::AtLineStart => {
            if b == HEADER_MARK {
                (ScanState::InHeader, 0, 0)
            } else {
                (ScanState::InSequence, alpha_tab.lookup(b), gc_tab.lookup(b))
            }
        },
        ScanState::InSequence => {
            if b == NEWLINE {
                (ScanState::AtLineStart, 0, 0)
            } else {
                (ScanState::InSequence, alpha_tab.lookup(b), gc_tab.lookup(b))
            }
        },
    }
}

/// Counting never outruns the input: over any bytes, the GC count stays
/// within the total base count, and the total within the byte count.
pub proof fn lemma_counts_bounded(s: ScanState, bytes: Seq<u8>)
    ensures
        scan_gc(s, bytes) <= scan_total(s, bytes) <= bytes.len(),
    decreases bytes.len(),
{
    if bytes.len() > 0 {
        lemma_counts_bounded(s, bytes.drop_last());
    }
}

/// Feed one buffer of the file through the state machine, advancing
/// `location` and adding each classified byte's flags to the two counters.
/// State and counters persist across buffers, so a line spanning two reads
/// is scanned exactly as if it had arrived in one.
pub fn process_buffer(
    location: &mut ScanState,
    buffer: &[u8],
    count_alpha: &mut u64,
    count_gc: &mut u64,
    alpha_tab: &ClassifierTable,
    gc_tab: &ClassifierTable,
)
    requires
        is_alpha_table(*alpha_tab),
        is_gc_table(*gc_tab),
        *old(count_alpha) + buffer@.len() <= u64::MAX,
        *old(count_gc) + buffer@.len() <= u64::MAX,
    ensures
        *final(location) == scan_state(*old(location), buffer@),
        *final(count_alpha) == *old(count_alpha) + scan_total(*old(location), buffer@),
        *final(count_gc) == *old(count_gc) + scan_gc(*old(location), buffer@),
{
    let ghost start_state = *location;
    let ghost start_alpha = *count_alpha;
    let ghost start_gc = *count_gc;
    let mut i: usize = 0;
    while i < buffer.len()
        invariant
            is_alpha_table(*alpha_tab),
            is_gc_table(*gc_tab),
            i <= buffer@.len(),
            start_alpha + buffer@.len() <= u64::MAX,
            start_gc + buffer@.len() <= u64::MAX,
            *location == scan_state(start_state, buffer@.subrange(0, i as int)),
            *count_alpha == start_alpha + scan_total(start_state, buffer@.subrange(0, i as int)),
            *count_gc == start_gc + scan_gc(start_state, buffer@.subrange(0, i as int)),
        decreases buffer@.len() - i,
    {
        let ghost prefix = buffer@.subrange(0, i as int);
        let ghost extended = buffer@.subrange(0, i + 1 as int);
        proof {
            lemma_counts_bounded(start_state, prefix);
            assert(extended.drop_last() =~= prefix);
            assert(extended.last() == buffer@[i as int]);
        }
        let (next, d_alpha, d_gc) = step(*location, buffer[i], alpha_tab, gc_tab);
        *location = next;
        *count_alpha = *count_alpha + d_alpha;
        *count_gc = *count_gc + d_gc;
        i = i + 1;
    }
    proof {
        assert(buffer@.subrange(0, buffer@.len() as int) =~= buffer@);
    }
}

/// The aggregate counters of one scan: the number of bases seen and, among
/// them, the number of GC bases. Both only ever grow during a scan.
#[derive(Clone, Copy, PartialEq, Eq, Structural, Debug)]
pub struct ScanCounts {
    /// Alphabetic bytes seen on sequence lines.
    pub total_bases: u64,
    /// `G`/`C`/`g`/`c` bytes seen on sequence lines.
    pub gc_bases: u64,
}

/// Scan a whole file's bytes, starting in the header state as a FASTA file
/// is assumed to open with a `>` header line. Returns both counters; the
/// GC ratio is their quotient and is left to the caller, since it is
/// undefined when no base was seen.
pub fn scan_bytes(content: &[u8]) -> (r: ScanCounts)
    requires
        content@.len() <= u64::MAX,
    ensures
        r.total_bases == scan_total(ScanState::InHeader, content@),
        r.gc_bases == scan_gc(ScanState::InHeader, content@),
        r.gc_bases <= r.total_bases,
{
    let alpha_tab = crate::tables::build_alpha_table();
    let gc_tab = crate::tables::build_gc_table();
    let mut location = ScanState::InHeader;
    let mut count_alpha: u64 = 0;
    let mut count_gc: u64 = 0;
    process_buffer(&mut location, content, &mut count_alpha, &mut count_gc, &alpha_tab, &gc_tab);
    proof {
        lemma_counts_bounded(ScanState::InHeader, content@);
    }
    ScanCounts { total_bases: count_alpha, gc_bases: count_gc }
}

/// Splitting the input anywhere changes nothing: scanning `a + b` in one go
/// leaves the same state and the same counts as scanning `a`, carrying the
/// state over, and then scanning `b`. Hence a scan fed chunk by chunk, with
/// any chunk sizes, agrees with a scan of the whole file at once.
pub proof fn lemma_scan_split(s: ScanState, a: Seq<u8>, b: Seq<u8>)
    ensures
        scan_state(s, a + b) == scan_state(scan_state(s, a), b),
        scan_total(s, a + b) == scan_total(s, a) + scan_total(scan_state(s, a), b),
        scan_gc(s, a + b) == scan_gc(s, a) + scan_gc(scan_state(s, a), b),
    decreases b.len(),
{
    if b.len() == 0 {
        assert(a + b =~= a);
    } else {
        lemma_scan_split(s, a, b.drop_last());
        assert((a + b).drop_last() =~= a + b.drop_last());
        assert((a + b).last() == b.last());
    }
}

/// Scanning is a function of the bytes alone: two scans of the same content
/// from the same state end in the same state with the same counts, so
/// scanning a file twice yields identical results.
pub proof fn lemma_scan_repeatable(s: ScanState, a: Seq<u8>, b: Seq<u8>)
    requires
        a == b,
    ensures
        scan_state(s, a) == scan_state(s, b),
        scan_total(s, a) == scan_total(s, b),
        scan_gc(s, a) == scan_gc(s, b),
{
}

/// What one byte can contribute: only a classified alphabetic byte counts
/// toward the total, only a classified GC byte toward the GC count, and a
/// GC contribution is always also a base contribution. In particular `N`
/// is alphabetic and counts as a base but never as GC, while a byte such
/// as `-` is not alphabetic and never counts at all.
pub proof fn lemma_byte_contribution(s: ScanState, b: u8)
    ensures
        base_delta(s, b) == 1 <==> classified(s, b) && is_alpha_byte(b),
        gc_delta(s, b) == 1 <==> classified(s, b) && is_gc_byte(b),
        gc_delta(s, b) <= base_delta(s, b) <= 1,
{
}

} // verus!
