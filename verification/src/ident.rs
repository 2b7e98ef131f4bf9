//! The identifier encoder: composes the 32-bit `can_id` word from a raw
//! arbitration ID and a set of identifier flags. The encoder unconditionally
//! forces the extended-frame-format bit; this is a fixed policy of this
//! library, kept visible rather than hidden.

use vstd::prelude::*;

verus! {

/// Kernel identifier-flag bit signalling the extended (29-bit) frame format.
pub const CAN_EFF_FLAG: u32 = 0x8000_0000;
/// Kernel identifier-flag bit signalling a remote transmission request.
pub const CAN_RTR_FLAG: u32 = 0x4000_0000;
/// Kernel identifier-flag bit signalling an error frame.
pub const CAN_ERR_FLAG: u32 = 0x2000_0000;

/// Mask of the 29 identifier bits that remain below the three flag bits.
pub const CAN_ID_MASK: u32 = 0x1FFF_FFFF;

/// A subset of the kernel's identifier flags {EFF, RTR, ERR}, modelled as a
/// bit set with explicit union semantics.
#[derive(Clone, Copy, Debug, PartialEq, Eq, Structural)]
pub struct IdFlags {
    pub eff: bool,
    pub rtr: bool,
    pub err: bool,
}

impl IdFlags {
    /// The flag set as the kernel lays it out in the identifier word.
    pub open spec fn spec_bits(self) -> u32 {
        ((if self.eff { CAN_EFF_FLAG } else { 0u32 })
            | (if self.rtr { CAN_RTR_FLAG } else { 0u32 }))
            | (if self.err { CAN_ERR_FLAG } else { 0u32 })
    }

    /// The empty flag set.
    pub fn empty() -> (r: IdFlags)
        ensures
            !r.eff && !r.rtr && !r.err,
            r.spec_bits() == 0u32,
    {
        let r = IdFlags { eff: false, rtr: false, err: false };
        proof {
            assert(0u32 | 0u32 == 0u32) by (bit_vector);
        }
        r
    }

    /// The singleton {EFF}.
    pub fn eff() -> (r: IdFlags)
        ensures
            r.eff && !r.rtr && !r.err,
    {
        IdFlags { eff: true, rtr: false, err: false }
    }

    /// The singleton {RTR}.
    pub fn rtr() -> (r: IdFlags)
        ensures
            !r.eff && r.rtr && !r.err,
    {
        IdFlags { eff: false, rtr: true, err: false }
    }

    /// The singleton {ERR}.
    pub fn err() -> (r: IdFlags)
        ensures
            !r.eff && !r.rtr && r.err,
    {
        IdFlags { eff: false, rtr: false, err: true }
    }

    /// Set union: a flag is in the result exactly when it is in either side.
    pub fn union(self, other: IdFlags) -> (r: IdFlags)
        ensures
            r.eff == (self.eff || other.eff),
            r.rtr == (self.rtr || other.rtr),
            r.err == (self.err || other.err),
    {
        IdFlags {
            eff: self.eff || other.eff,
            rtr: self.rtr || other.rtr,
            err: self.err || other.err,
        }
    }

    /// The flag bits of this set, as a 32-bit word.
    pub fn bits(self) -> (r: u32)
        ensures
            r == self.spec_bits(),
    {
        let e: u32 = if self.eff { CAN_EFF_FLAG } else { 0u32 };
        let t: u32 = if self.rtr { CAN_RTR_FLAG } else { 0u32 };
        let g: u32 = if self.err { CAN_ERR_FLAG } else { 0u32 };
        (e | t) | g
    }
}

/// Flag bits live strictly above the 29 identifier bits.
pub proof fn lemma_bits_disjoint(flags: IdFlags)
    ensures
        flags.spec_bits() & CAN_ID_MASK == 0u32,
{
    let e = flags.eff;
    let t = flags.rtr;
    let g = flags.err;
    assert((((if e { 0x8000_0000u32 } else { 0u32 }) | (if t { 0x4000_0000u32 } else { 0u32 }))
        | (if g { 0x2000_0000u32 } else { 0u32 })) & 0x1FFF_FFFFu32 == 0u32) by (bit_vector);
}

/// The identifier word that `init_id_word` produces: the arbitration ID with
/// the requested flag bits and the forced EFF bit or-ed in.
pub open spec fn spec_id_word(id: u32, flags: IdFlags) -> u32 {
    (id | flags.spec_bits()) | CAN_EFF_FLAG
}

/// Compose the identifier word for the frame's `can_id` field. The EFF bit
/// is always set, whatever the caller asked for.
pub fn init_id_word(id: u32, flags: IdFlags) -> (r: u32)
    ensures
        r == spec_id_word(id, flags),
{
    (id | flags.bits()) | CAN_EFF_FLAG
}

/// For every arbitration ID below 2^29 and every flag set, the identifier
/// word has the EFF bit set, its 29 low bits are exactly the ID, and its
/// RTR and ERR bits are set exactly when the flag set holds them: the flag
/// bits of the word are precisely the requested set with EFF forced in.
pub proof fn lemma_id_word(id: u32, flags: IdFlags)
    requires
        id < 0x2000_0000u32,
    ensures
        spec_id_word(id, flags) & CAN_EFF_FLAG == CAN_EFF_FLAG,
        spec_id_word(id, flags) & CAN_ID_MASK == id,
        spec_id_word(id, flags) & CAN_RTR_FLAG == (if flags.rtr {
            CAN_RTR_FLAG
        } else {
            0u32
        }),
        spec_id_word(id, flags) & CAN_ERR_FLAG == (if flags.err {
            CAN_ERR_FLAG
        } else {
            0u32
        }),
{
    let e: u32 = if flags.eff {
        CAN_EFF_FLAG
    } else {
        0u32
    };
    let t: u32 = if flags.rtr {
        CAN_RTR_FLAG
    } else {
        0u32
    };
    let g: u32 = if flags.err {
        CAN_ERR_FLAG
    } else {
        0u32
    };
    assert(spec_id_word(id, flags) == (id | ((e | t) | g)) | 0x8000_0000u32);
    assert(((id | ((e | t) | g)) | 0x8000_0000u32) & 0x8000_0000u32 == 0x8000_0000u32)
        by (bit_vector);
    assert(((id | ((e | t) | g)) | 0x8000_0000u32) & 0x1FFF_FFFFu32 == id) by (bit_vector)
        requires
            id < 0x2000_0000u32,
            e == 0x8000_0000u32 || e == 0u32,
            t == 0x4000_0000u32 || t == 0u32,
            g == 0x2000_0000u32 || g == 0u32,
    ;
    assert(((id | ((e | t) | g)) | 0x8000_0000u32) & 0x4000_0000u32 == t) by (bit_vector)
        requires
            id < 0x2000_0000u32,
            e == 0x8000_0000u32 || e == 0u32,
            t == 0x4000_0000u32 || t == 0u32,
            g == 0x2000_0000u32 || g == 0u32,
    ;
    assert(((id | ((e | t) | g)) | 0x8000_0000u32) & 0x2000_0000u32 == g) by (bit_vector)
        requires
            id < 0x2000_0000u32,
            e == 0x8000_0000u32 || e == 0u32,
            t == 0x4000_0000u32 || t == 0u32,
            g == 0x2000_0000u32 || g == 0u32,
    ;
}

} // verus!
