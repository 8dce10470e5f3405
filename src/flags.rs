//! The packed state word of a run-down reference.
//!
//! One `u64` holds two quantities that must change together atomically: the
//! number of outstanding acquisitions in the low 60 bits, and the
//! "run-down in progress" flag in the top four bits.
use vstd::prelude::*;

verus! {

/// The top four bits: all of them set means that run-down is in progress.
pub const RUNDOWN_IN_PROGRESS: u64 = 0xF000_0000_0000_0000;

/// The low 60 bits, which hold the reference count. This is also the largest
/// count the word can represent.
pub const REF_COUNT_MASK: u64 = 0x0FFF_FFFF_FFFF_FFFF;

/// The reference count that a raw word encodes.
pub open spec fn word_ref_count(bits: u64) -> u64 {
    bits & 0x0FFF_FFFF_FFFF_FFFF
}

/// Whether a raw word has the run-down flag set (all four flag bits).
pub open spec fn word_draining(bits: u64) -> bool {
    bits & 0xF000_0000_0000_0000 == 0xF000_0000_0000_0000
}

/// The raw word for a count and a flag.
pub open spec fn encode_word(count: u64, draining: bool) -> u64 {
    if draining {
        count | 0xF000_0000_0000_0000
    } else {
        count
    }
}

/// A word whose flag bits are either all clear or all set; every word this
/// library stores has this shape.
pub open spec fn word_well_formed(bits: u64) -> bool {
    bits & 0xF000_0000_0000_0000 == 0 || bits & 0xF000_0000_0000_0000 == 0xF000_0000_0000_0000
}

/// A decoded view of the state word: the reference count and the run-down
/// flag, read from the same raw bits.
#[derive(Clone, Copy, Debug, PartialEq, Eq, Structural)]
pub struct RundownFlags {
    pub bits: u64,
}

impl RundownFlags {
    /// The word with a zero count and no run-down in progress.
    pub fn empty() -> (r: RundownFlags)
        ensures
            r.bits == 0,
            word_ref_count(r.bits) == 0,
            !word_draining(r.bits),
    {
        assert(0u64 & 0x0FFF_FFFF_FFFF_FFFF == 0) by (bit_vector);
        assert(0u64 & 0xF000_0000_0000_0000 == 0) by (bit_vector);
        RundownFlags { bits: 0 }
    }

    /// The raw bits of the word.
    pub fn bits(self) -> (r: u64)
        ensures
            r == self.bits,
    {
        self.bits
    }

    /// Returns true if the run-down in progress flag is set.
    pub fn is_rundown_in_progress(self) -> (r: bool)
        ensures
            r == word_draining(self.bits),
        opens_invariants none
        no_unwind
    {
        self.bits & RUNDOWN_IN_PROGRESS == RUNDOWN_IN_PROGRESS
    }

    /// Returns true if the run-down in progress flag is not set.
    pub fn is_pre_rundown(self) -> (r: bool)
        ensures
            r == !word_draining(self.bits),
    {
        self.bits & RUNDOWN_IN_PROGRESS != RUNDOWN_IN_PROGRESS
    }

    /// Returns the raw word with the run-down flag set and the count kept.
    pub fn set_rundown_in_progress(self) -> (r: u64)
        ensures
            r == self.bits | RUNDOWN_IN_PROGRESS,
            word_draining(r),
            word_ref_count(r) == word_ref_count(self.bits),
            word_well_formed(r),
    {
        proof {
            lemma_set_flag(self.bits);
        }
        self.bits | RUNDOWN_IN_PROGRESS
    }

    /// Returns just the reference count encoded in the word.
    pub fn get_ref(self) -> (r: u64)
        ensures
            r == word_ref_count(self.bits),
            r <= REF_COUNT_MASK,
        opens_invariants none
        no_unwind
    {
        let b = self.bits;
        assert(b & 0x0FFF_FFFF_FFFF_FFFF <= 0x0FFF_FFFF_FFFF_FFFF) by (bit_vector);
        self.bits & REF_COUNT_MASK
    }

    /// Returns true if the reference count is zero.
    pub fn is_ref_zero(self) -> (r: bool)
        ensures
            r == (word_ref_count(self.bits) == 0),
    {
        self.get_ref() == 0
    }

    /// Returns true if the reference count is non-zero.
    pub fn is_ref_active(self) -> (r: bool)
        ensures
            r == (word_ref_count(self.bits) > 0),
    {
        self.get_ref() > 0
    }

    /// Returns the raw word with the reference count one higher and the flag
    /// bits kept. A count at its largest representable value cannot be raised.
    pub fn add_ref(self) -> (r: u64)
        requires
            word_ref_count(self.bits) < REF_COUNT_MASK,
        ensures
            r == self.bits + 1,
            word_ref_count(r) == word_ref_count(self.bits) + 1,
            r & RUNDOWN_IN_PROGRESS == self.bits & RUNDOWN_IN_PROGRESS,
            word_draining(r) == word_draining(self.bits),
    {
        proof {
            lemma_increment(self.bits);
        }
        self.bits + 1
    }

    /// Returns the raw word with the reference count one lower and the flag
    /// bits kept. A zero count cannot be lowered.
    pub fn dec_ref(self) -> (r: u64)
        requires
            word_ref_count(self.bits) > 0,
        ensures
            r == self.bits - 1,
            word_ref_count(r) == word_ref_count(self.bits) - 1,
            r & RUNDOWN_IN_PROGRESS == self.bits & RUNDOWN_IN_PROGRESS,
            word_draining(r) == word_draining(self.bits),
    {
        proof {
            lemma_decrement(self.bits);
        }
        self.bits - 1
    }
}

/// Reads raw bits as a state word; every bit, flag and count alike, is kept.
pub fn to_flags(bits: u64) -> (r: RundownFlags)
    ensures
        r.bits == bits,
    opens_invariants none
    no_unwind
{
    RundownFlags { bits }
}

/// Builds the state word for a reference count and a run-down flag.
pub fn from_parts(count: u64, draining: bool) -> (r: RundownFlags)
    requires
        count <= REF_COUNT_MASK,
    ensures
        r.bits == encode_word(count, draining),
        word_ref_count(r.bits) == count,
        word_draining(r.bits) == draining,
        word_well_formed(r.bits),
{
    proof {
        lemma_decode_encode(count, draining);
    }
    if draining {
        RundownFlags { bits: count | RUNDOWN_IN_PROGRESS }
    } else {
        RundownFlags { bits: count }
    }
}

/// Decoding an encoded word gives back the count and the flag it was built
/// from, for every count the word can represent.
pub proof fn lemma_decode_encode(count: u64, draining: bool)
    requires
        count <= REF_COUNT_MASK,
    ensures
        word_ref_count(encode_word(count, draining)) == count,
        word_draining(encode_word(count, draining)) == draining,
        word_well_formed(encode_word(count, draining)),
{
    assert(count <= 0x0FFF_FFFF_FFFF_FFFF ==> {
        &&& (count | 0xF000_0000_0000_0000) & 0x0FFF_FFFF_FFFF_FFFF == count
        &&& (count | 0xF000_0000_0000_0000) & 0xF000_0000_0000_0000 == 0xF000_0000_0000_0000
        &&& count & 0x0FFF_FFFF_FFFF_FFFF == count
        &&& count & 0xF000_0000_0000_0000 == 0
    }) by (bit_vector);
}

/// Encoding the decoded count and flag of a well-formed word gives back the
/// same raw bits.
pub proof fn lemma_encode_decode(bits: u64)
    requires
        word_well_formed(bits),
    ensures
        encode_word(word_ref_count(bits), word_draining(bits)) == bits,
{
    assert(bits & 0xF000_0000_0000_0000 == 0 ==> bits & 0x0FFF_FFFF_FFFF_FFFF == bits)
        by (bit_vector);
    assert(bits & 0xF000_0000_0000_0000 == 0xF000_0000_0000_0000 ==> (bits
        & 0x0FFF_FFFF_FFFF_FFFF) | 0xF000_0000_0000_0000 == bits) by (bit_vector);
    assert(bits & 0xF000_0000_0000_0000 == 0 ==> bits & 0xF000_0000_0000_0000
        != 0xF000_0000_0000_0000) by (bit_vector);
}

/// Adding one to a word whose count is below the largest raises the count by
/// one and keeps the flag bits.
pub proof fn lemma_increment(bits: u64)
    requires
        word_ref_count(bits) < REF_COUNT_MASK,
    ensures
        bits < u64::MAX,
        word_ref_count((bits + 1) as u64) == word_ref_count(bits) + 1,
        ((bits + 1) as u64) & RUNDOWN_IN_PROGRESS == bits & RUNDOWN_IN_PROGRESS,
{
    assert(bits & 0x0FFF_FFFF_FFFF_FFFF < 0x0FFF_FFFF_FFFF_FFFF ==> {
        &&& bits < 0xFFFF_FFFF_FFFF_FFFF
        &&& (((bits + 1) as u64) & 0x0FFF_FFFF_FFFF_FFFF) == ((bits & 0x0FFF_FFFF_FFFF_FFFF)
            + 1) as u64
        &&& (((bits + 1) as u64) & 0xF000_0000_0000_0000) == bits & 0xF000_0000_0000_0000
    }) by (bit_vector);
}

/// Subtracting one from a word whose count is positive lowers the count by one
/// and keeps the flag bits.
pub proof fn lemma_decrement(bits: u64)
    requires
        word_ref_count(bits) > 0,
    ensures
        bits > 0,
        word_ref_count((bits - 1) as u64) == word_ref_count(bits) - 1,
        ((bits - 1) as u64) & RUNDOWN_IN_PROGRESS == bits & RUNDOWN_IN_PROGRESS,
{
    assert(bits & 0x0FFF_FFFF_FFFF_FFFF > 0 ==> {
        &&& bits > 0
        &&& (((bits - 1) as u64) & 0x0FFF_FFFF_FFFF_FFFF) == ((bits & 0x0FFF_FFFF_FFFF_FFFF)
            - 1) as u64
        &&& (((bits - 1) as u64) & 0xF000_0000_0000_0000) == bits & 0xF000_0000_0000_0000
    }) by (bit_vector);
}

/// Setting the flag bits keeps the count, and changes nothing on a word whose
/// flag is already set.
pub proof fn lemma_set_flag(bits: u64)
    ensures
        word_draining(bits | RUNDOWN_IN_PROGRESS),
        word_ref_count(bits | RUNDOWN_IN_PROGRESS) == word_ref_count(bits),
        word_well_formed(bits | RUNDOWN_IN_PROGRESS),
        word_draining(bits) ==> bits | RUNDOWN_IN_PROGRESS == bits,
{
    assert((bits | 0xF000_0000_0000_0000) & 0xF000_0000_0000_0000 == 0xF000_0000_0000_0000)
        by (bit_vector);
    assert((bits | 0xF000_0000_0000_0000) & 0x0FFF_FFFF_FFFF_FFFF == bits
        & 0x0FFF_FFFF_FFFF_FFFF) by (bit_vector);
    assert(bits & 0xF000_0000_0000_0000 == 0xF000_0000_0000_0000 ==> bits
        | 0xF000_0000_0000_0000 == bits) by (bit_vector);
}

} // verus!
