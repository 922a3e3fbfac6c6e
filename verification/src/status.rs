use vstd::prelude::*;

verus! {

/// The bits of a status that carry a meaning; the others are never set.
pub const ALL_FLAGS: u8 = 0b11111;

/// One of the five flags of a position's status.
#[derive(Copy, Clone, Debug, PartialEq, Eq, Structural)]
pub enum StatusFlag {
    /// Flips with every half-move.
    Halfmove,
    /// White has lost the right to castle on the king's side.
    NoWhiteKingsideCastle,
    /// White has lost the right to castle on the queen's side.
    NoWhiteQueensideCastle,
    /// Black has lost the right to castle on the king's side.
    NoBlackKingsideCastle,
    /// Black has lost the right to castle on the queen's side.
    NoBlackQueensideCastle,
}

impl StatusFlag {
    /// The bit that stands for the flag.
    pub open spec fn spec_bit(self) -> u8 {
        match self {
            StatusFlag::Halfmove => 0b00001,
            StatusFlag::NoWhiteKingsideCastle => 0b00010,
            StatusFlag::NoWhiteQueensideCastle => 0b00100,
            StatusFlag::NoBlackKingsideCastle => 0b01000,
            StatusFlag::NoBlackQueensideCastle => 0b10000,
        }
    }

    /// The bit that stands for the flag.
    #[verifier::when_used_as_spec(spec_bit)]
    pub fn bit(self) -> (b: u8)
        ensures
            b == self.spec_bit(),
    {
        match self {
            StatusFlag::Halfmove => 0b00001,
            StatusFlag::NoWhiteKingsideCastle => 0b00010,
            StatusFlag::NoWhiteQueensideCastle => 0b00100,
            StatusFlag::NoBlackKingsideCastle => 0b01000,
            StatusFlag::NoBlackQueensideCastle => 0b10000,
        }
    }
}

/// Whether the bit pattern `bits` has the flag `flag` set.
pub open spec fn bits_contain(bits: u8, flag: StatusFlag) -> bool {
    bits & flag.spec_bit() == flag.spec_bit()
}

/// Whether the bit pattern `bits` sets no bit without a meaning.
pub open spec fn bits_valid(bits: u8) -> bool {
    bits & !ALL_FLAGS == 0
}

/// The set of flags of a position. Its view is the bit pattern: the union of
/// the bits of the flags that are set.
#[derive(Copy, Clone, Debug, PartialEq, Eq, Structural)]
pub struct PositionStatus {
    bits: u8,
}

impl View for PositionStatus {
    type V = u8;

    closed spec fn view(&self) -> u8 {
        self.bits
    }
}

impl PositionStatus {
    /// Whether the flag is set.
    pub open spec fn spec_contains(&self, flag: StatusFlag) -> bool {
        bits_contain(self@, flag)
    }

    /// The status with no flag set.
    pub fn empty() -> (s: PositionStatus)
        ensures
            s@ == 0,
            bits_valid(s@),
            forall|flag: StatusFlag| !s.spec_contains(flag),
    {
        assert(bits_valid(0u8)) by (bit_vector);
        assert forall|flag: StatusFlag| !bits_contain(0u8, flag) by {
            let b = flag.spec_bit();
            assert(b != 0 ==> 0u8 & b != b) by (bit_vector);
        }
        PositionStatus { bits: 0 }
    }

    /// The status with exactly the given bits, if each of them has a meaning.
    pub fn from_bits(bits: u8) -> (r: Option<PositionStatus>)
        ensures
            bits_valid(bits) ==> (r matches Some(s) && s@ == bits),
            !bits_valid(bits) ==> r.is_none(),
    {
        if bits & !ALL_FLAGS == 0 {
            Some(PositionStatus { bits })
        } else {
            None
        }
    }

    /// The bit pattern.
    pub fn bits(&self) -> (b: u8)
        ensures
            b == self@,
    {
        self.bits
    }

    /// Whether the flag is set.
    #[verifier::when_used_as_spec(spec_contains)]
    pub fn contains(&self, flag: StatusFlag) -> (b: bool)
        ensures
            b == self.spec_contains(flag),
    {
        self.bits & flag.bit() == flag.bit()
    }

    /// Sets the flag and leaves the others as they are.
    pub fn insert(&mut self, flag: StatusFlag)
        ensures
            final(self)@ == old(self)@ | flag.spec_bit(),
            final(self).spec_contains(flag),
            forall|other: StatusFlag|
                other != flag ==> final(self).spec_contains(other) == old(self).spec_contains(
                    other,
                ),
            bits_valid(old(self)@) ==> bits_valid(final(self)@),
    {
        proof {
            lemma_insert(self.bits, flag);
        }
        self.bits = self.bits | flag.bit();
    }

    /// Flips the flag and leaves the others as they are.
    pub fn toggle(&mut self, flag: StatusFlag)
        ensures
            final(self)@ == old(self)@ ^ flag.spec_bit(),
            final(self).spec_contains(flag) == !old(self).spec_contains(flag),
            forall|other: StatusFlag|
                other != flag ==> final(self).spec_contains(other) == old(self).spec_contains(
                    other,
                ),
            bits_valid(old(self)@) ==> bits_valid(final(self)@),
    {
        proof {
            lemma_toggle(self.bits, flag);
        }
        self.bits = self.bits ^ flag.bit();
    }
}

impl Default for PositionStatus {
    /// The status with no flag set.
    fn default() -> (s: PositionStatus)
        ensures
            s@ == 0,
            bits_valid(s@),
    {
        PositionStatus::empty()
    }
}

/// Setting a flag in a bit pattern sets it, keeps every other flag as it
/// was, and sets no bit without a meaning.
pub proof fn lemma_insert(bits: u8, flag: StatusFlag)
    ensures
        bits_contain(bits | flag.spec_bit(), flag),
        forall|other: StatusFlag|
            other != flag ==> bits_contain(bits | flag.spec_bit(), other) == bits_contain(
                bits,
                other,
            ),
        bits_valid(bits) ==> bits_valid(bits | flag.spec_bit()),
{
    let f = flag.spec_bit();
    assert((bits | f) & f == f) by (bit_vector);
    assert forall|other: StatusFlag| other != flag implies bits_contain(bits | f, other)
        == bits_contain(bits, other) by {
        let g = other.spec_bit();
        lemma_flag_bits(f, g);
        assert(f & g == 0 ==> (((bits | f) & g == g) <==> (bits & g == g))) by (bit_vector);
    }
    lemma_flag_bits(f, f);
    assert((bits & !0b11111u8 == 0 && f & !0b11111u8 == 0) ==> (bits | f) & !0b11111u8 == 0)
        by (bit_vector);
}

/// Flipping a flag in a bit pattern flips it, keeps every other flag as it
/// was, and sets no bit without a meaning.
pub proof fn lemma_toggle(bits: u8, flag: StatusFlag)
    ensures
        bits_contain(bits ^ flag.spec_bit(), flag) == !bits_contain(bits, flag),
        forall|other: StatusFlag|
            other != flag ==> bits_contain(bits ^ flag.spec_bit(), other) == bits_contain(
                bits,
                other,
            ),
        bits_valid(bits) ==> bits_valid(bits ^ flag.spec_bit()),
{
    let f = flag.spec_bit();
    assert((f == 1 || f == 2 || f == 4 || f == 8 || f == 16) ==> (((bits ^ f) & f == f) <==> !(bits
        & f == f))) by (bit_vector);
    assert forall|other: StatusFlag| other != flag implies bits_contain(bits ^ f, other)
        == bits_contain(bits, other) by {
        let g = other.spec_bit();
        lemma_flag_bits(f, g);
        assert(f & g == 0 ==> (((bits ^ f) & g == g) <==> (bits & g == g))) by (bit_vector);
    }
    lemma_flag_bits(f, f);
    assert((bits & !0b11111u8 == 0 && f & !0b11111u8 == 0) ==> (bits ^ f) & !0b11111u8 == 0)
        by (bit_vector);
}

/// The bits of two different flags share no bit, and the bit of a flag has a
/// meaning.
proof fn lemma_flag_bits(f: u8, g: u8)
    by (bit_vector)
    requires
        f == 1 || f == 2 || f == 4 || f == 8 || f == 16,
        g == 1 || g == 2 || g == 4 || g == 8 || g == 16,
    ensures
        f != g ==> f & g == 0,
        f & !0b11111u8 == 0,
{
}

/// Flipping the same flag twice gives the bit pattern back.
pub proof fn lemma_toggle_twice(bits: u8, flag: StatusFlag)
    ensures
        (bits ^ flag.spec_bit()) ^ flag.spec_bit() == bits,
{
    let f = flag.spec_bit();
    assert((bits ^ f) ^ f == bits) by (bit_vector);
}

} // verus!
