//! Byte classifier tables: fixed 256-entry maps from a raw byte value to a
//! 0/1 flag, one flagging alphabetic bytes (valid base symbols) and one
//! flagging the four GC symbols `G`, `C`, `g`, `c`.

use vstd::prelude::*;

verus! {

/// ASCII `A`.
pub const UPPER_A: u8 = 65;

/// ASCII `Z`.
pub const UPPER_Z: u8 = 90;

/// ASCII `a`.
pub const LOWER_A: u8 = 97;

/// ASCII `z`.
pub const LOWER_Z: u8 = 122;

/// ASCII `G`.
pub const UPPER_G: u8 = 71;

/// ASCII `C`.
pub const UPPER_C: u8 = 67;

/// ASCII `g`.
pub const LOWER_G: u8 = 103;

/// ASCII `c`.
pub const LOWER_C: u8 = 99;

/// A byte is an ASCII letter (`A`-`Z` or `a`-`z`).
pub open spec fn is_alpha_byte(b: u8) -> bool {
    (UPPER_A <= b && b <= UPPER_Z) || (LOWER_A <= b && b <= LOWER_Z)
}

/// A byte is one of the four GC symbols `G`, `C`, `g`, `c`.
pub open spec fn is_gc_byte(b: u8) -> bool {
    b == UPPER_G || b == UPPER_C || b == LOWER_G || b == LOWER_C
}

/// The flag a classifier table holds for a byte satisfying `p`.
pub open spec fn flag_of(p: bool) -> u64 {
    if p {
        1u64
    } else {
        0u64
    }
}

/// An immutable map from byte value (0-255) to a 0/1 flag.
/// Built once, never mutated afterwards.
pub struct ClassifierTable {
    entries: Vec<u64>,
}

impl ClassifierTable {
    /// The flag stored for byte value `b`.
    pub closed spec fn entry(self, b: u8) -> u64 {
        self.entries@[b as int]
    }

    /// The table covers every byte value.
    pub closed spec fn wf(self) -> bool {
        self.entries@.len() == 256
    }

    /// Read the flag for byte `b`.
    pub fn lookup(&self, b: u8) -> (r: u64)
        requires
            self.wf(),
        ensures
            r == self.entry(b),
    {
        self.entries[b as usize]
    }
}

/// The table flags exactly the alphabetic bytes.
pub open spec fn is_alpha_table(t: ClassifierTable) -> bool {
    &&& t.wf()
    &&& forall|b: u8| #[trigger] t.entry(b) == flag_of(is_alpha_byte(b))
}

/// The table flags exactly the GC bytes.
pub open spec fn is_gc_table(t: ClassifierTable) -> bool {
    &&& t.wf()
    &&& forall|b: u8| #[trigger] t.entry(b) == flag_of(is_gc_byte(b))
}

/// Build the table whose entry is 1 for ASCII letters and 0 elsewhere.
pub fn build_alpha_table() -> (t: ClassifierTable)
    ensures
        is_alpha_table(t),
{
    let mut entries: Vec<u64> = Vec::new();
    let mut i: usize = 0;
    while i < 256
        invariant
            i <= 256,
            entries@.len() == i,
            forall|j: int| 0 <= j < i ==> entries@[j] == flag_of(is_alpha_byte(j as u8)),
        decreases 256 - i,
    {
        let b = i as u8;
        let flag: u64 = if (UPPER_A <= b && b <= UPPER_Z) || (LOWER_A <= b && b <= LOWER_Z) {
            1
        } else {
            0
        };
        entries.push(flag);
        i = i + 1;
    }
    ClassifierTable { entries }
}

/// Build the table whose entry is 1 for `G`, `C`, `g`, `c` and 0 elsewhere.
pub fn build_gc_table() -> (t: ClassifierTable)
    ensures
        is_gc_table(t),
{
    let mut entries: Vec<u64> = Vec::new();
    let mut i: usize = 0;
    while i < 256
        invariant
            i <= 256,
            entries@.len() == i,
            forall|j: int| 0 <= j < i ==> entries@[j] == flag_of(is_gc_byte(j as u8)),
        decreases 256 - i,
    {
        let b = i as u8;
        let flag: u64 = if b == UPPER_G || b == UPPER_C || b == LOWER_G || b == LOWER_C {
            1
        } else {
            0
        };
        entries.push(flag);
        i = i + 1;
    }
    ClassifierTable { entries }
}

/// Every GC byte is alphabetic, so GC counts can never outrun base counts.
pub proof fn lemma_gc_byte_is_alpha(b: u8)
    ensures
        is_gc_byte(b) ==> is_alpha_byte(b),
{
}

} // verus!
