//! CAN identifiers.
use core::cmp::Ordering;
use vstd::prelude::*;

verus! {

/// Largest raw value of an 11-bit standard identifier.
pub const STANDARD_RAW_MAX: u16 = 0x7FF;

/// Largest raw value of a 29-bit extended identifier.
pub const EXTENDED_RAW_MAX: u32 = 0x1FFF_FFFF;

/// Standard 11-bit CAN Identifier (`0..=0x7FF`).
#[derive(Debug, Copy, Clone, PartialEq, Eq, Structural, PartialOrd, Ord, Hash)]
pub struct StandardId(u16);

impl View for StandardId {
    type V = u16;

    closed spec fn view(&self) -> u16 {
        self.0
    }
}

impl StandardId {
    #[verifier::type_invariant]
    spec fn in_range(&self) -> bool {
        self.0 <= STANDARD_RAW_MAX
    }

    /// CAN ID `0`, the highest priority.
    pub fn zero() -> (r: StandardId)
        ensures
            r@ == 0,
    {
        StandardId(0)
    }

    /// CAN ID `0x7FF`, the lowest priority.
    pub fn max_id() -> (r: StandardId)
        ensures
            r@ == STANDARD_RAW_MAX,
    {
        StandardId(STANDARD_RAW_MAX)
    }

    /// Tries to create a `StandardId` from a raw 16-bit integer.
    ///
    /// Returns `None` if `raw` is out of range of an 11-bit integer (`> 0x7FF`).
    pub fn new(raw: u16) -> (r: Option<StandardId>)
        ensures
            r is Some <==> raw <= STANDARD_RAW_MAX,
            r matches Some(id) ==> id@ == raw,
    {
        if raw <= STANDARD_RAW_MAX {
            Some(StandardId(raw))
        } else {
            None
        }
    }

    /// Creates a `StandardId` from a raw value that the caller already knows
    /// to fit in 11 bits. The range is not checked at run time: it is a
    /// precondition, proved at each verified call site and left to the
    /// caller elsewhere.
    pub fn new_unchecked(raw: u16) -> (r: StandardId)
        requires
            raw <= STANDARD_RAW_MAX,
        ensures
            r@ == raw,
    {
        StandardId(raw)
    }

    /// Returns this CAN Identifier as a raw 16-bit integer.
    pub fn as_raw(&self) -> (r: u16)
        ensures
            r == self@,
            r <= STANDARD_RAW_MAX,
    {
        proof {
            use_type_invariant(self);
        }
        self.0
    }
}


/// Extended 29-bit CAN Identifier (`0..=0x1FFF_FFFF`).
#[derive(Debug, Copy, Clone, PartialEq, Eq, Structural, PartialOrd, Ord, Hash)]
pub struct ExtendedId(u32);

impl View for ExtendedId {
    type V = u32;

    closed spec fn view(&self) -> u32 {
        self.0
    }
}

/// Bits 28 to 18 of an extended raw value: its base identifier.
pub open spec fn base_bits(raw: u32) -> u16 {
    (raw >> 18u32) as u16
}

/// Bits 17 to 0 of an extended raw value.
pub open spec fn low_bits(raw: u32) -> u32 {
    raw & 0x3FFFFu32
}

impl ExtendedId {
    #[verifier::type_invariant]
    spec fn in_range(&self) -> bool {
        self.0 <= EXTENDED_RAW_MAX
    }

    /// CAN ID `0`, the highest priority.
    pub fn zero() -> (r: ExtendedId)
        ensures
            r@ == 0,
    {
        ExtendedId(0)
    }

    /// CAN ID `0x1FFF_FFFF`, the lowest priority.
    pub fn max_id() -> (r: ExtendedId)
        ensures
            r@ == EXTENDED_RAW_MAX,
    {
        ExtendedId(EXTENDED_RAW_MAX)
    }

    /// Tries to create an `ExtendedId` from a raw 32-bit integer.
    ///
    /// Returns `None` if `raw` is out of range of a 29-bit integer (`> 0x1FFF_FFFF`).
    pub fn new(raw: u32) -> (r: Option<ExtendedId>)
        ensures
            r is Some <==> raw <= EXTENDED_RAW_MAX,
            r matches Some(id) ==> id@ == raw,
    {
        if raw <= EXTENDED_RAW_MAX {
            Some(ExtendedId(raw))
        } else {
            None
        }
    }

    /// Creates an `ExtendedId` from a raw value that the caller already knows
    /// to fit in 29 bits. The range is not checked at run time: it is a
    /// precondition, proved at each verified call site and left to the
    /// caller elsewhere.
    pub fn new_unchecked(raw: u32) -> (r: ExtendedId)
        requires
            raw <= EXTENDED_RAW_MAX,
        ensures
            r@ == raw,
    {
        ExtendedId(raw)
    }

    /// Returns this CAN Identifier as a raw 32-bit integer.
    pub fn as_raw(&self) -> (r: u32)
        ensures
            r == self@,
            r <= EXTENDED_RAW_MAX,
    {
        proof {
            use_type_invariant(self);
        }
        self.0
    }

    /// Returns the base ID part of this extended identifier (ID-28 to ID-18).
    pub fn standard_id(&self) -> (r: StandardId)
        ensures
            r@ == base_bits(self@),
    {
        proof {
            use_type_invariant(self);
        }
        let raw = self.0;
        let base = raw >> 18u32;
        assert(base <= 0x7FF) by (bit_vector)
            requires
                base == raw >> 18u32,
                raw <= 0x1FFF_FFFFu32,
        ;
        StandardId(base as u16)
    }
}

/// A CAN Identifier (standard or extended).
#[derive(Debug, Copy, Clone, PartialEq, Eq, Structural, Hash)]
pub enum Id {
    /// Standard 11-bit Identifier (`0..=0x7FF`).
    Standard(StandardId),
    /// Extended 29-bit Identifier (`0..=0x1FFF_FFFF`).
    Extended(ExtendedId),
}

/// Lexicographic comparison of two arbitration keys.
pub open spec fn key_cmp(a: (int, int, int), b: (int, int, int)) -> Ordering {
    if a.0 < b.0 {
        Ordering::Less
    } else if a.0 > b.0 {
        Ordering::Greater
    } else if a.1 < b.1 {
        Ordering::Less
    } else if a.1 > b.1 {
        Ordering::Greater
    } else if a.2 < b.2 {
        Ordering::Less
    } else if a.2 > b.2 {
        Ordering::Greater
    } else {
        Ordering::Equal
    }
}

impl Id {
    /// The arbitration key: the 11 base bits, the IDE bit (0 for a standard
    /// frame, 1 for an extended one) and the 18 low bits of an extended frame.
    pub open spec fn key(self) -> (int, int, int) {
        match self {
            Id::Standard(s) => (s@ as int, 0, 0),
            Id::Extended(e) => (base_bits(e@) as int, 1, low_bits(e@) as int),
        }
    }

    /// The order in which identifiers win arbitration on the bus: the most
    /// dominant identifier is the least.
    pub open spec fn arbitration_cmp(self, other: Id) -> Ordering {
        key_cmp(self.key(), other.key())
    }

    fn split(&self) -> (r: (u16, u8, u32))
        ensures
            (r.0 as int, r.1 as int, r.2 as int) == self.key(),
    {
        match self {
            Id::Standard(s) => (s.0, 0, 0),
            Id::Extended(e) => (e.standard_id().0, 1, e.0 & 0x3FFFFu32),
        }
    }

    /// Compares two identifiers by CAN arbitration: the frame that wins the
    /// bus compares as the lesser.
    pub fn cmp(&self, other: &Id) -> (r: Ordering)
        ensures
            r == self.arbitration_cmp(*other),
    {
        let a = self.split();
        let b = other.split();
        if a.0 < b.0 {
            Ordering::Less
        } else if a.0 > b.0 {
            Ordering::Greater
        } else if a.1 < b.1 {
            Ordering::Less
        } else if a.1 > b.1 {
            Ordering::Greater
        } else if a.2 < b.2 {
            Ordering::Less
        } else if a.2 > b.2 {
            Ordering::Greater
        } else {
            Ordering::Equal
        }
    }
}

impl PartialOrd for Id {
    fn partial_cmp(&self, other: &Id) -> (r: Option<Ordering>)
        ensures
            r == Some(self.arbitration_cmp(*other)),
    {
        Some(self.cmp(other))
    }
}

impl vstd::std_specs::cmp::PartialOrdSpecImpl for Id {
    open spec fn obeys_partial_cmp_spec() -> bool {
        true
    }

    open spec fn partial_cmp_spec(&self, other: &Id) -> Option<Ordering> {
        Some(self.arbitration_cmp(*other))
    }
}

impl From<StandardId> for Id {
    fn from(id: StandardId) -> (r: Id) {
        Id::Standard(id)
    }
}

impl vstd::std_specs::convert::FromSpecImpl<StandardId> for Id {
    open spec fn obeys_from_spec() -> bool {
        true
    }

    open spec fn from_spec(id: StandardId) -> Id {
        Id::Standard(id)
    }
}

impl From<ExtendedId> for Id {
    fn from(id: ExtendedId) -> (r: Id) {
        Id::Extended(id)
    }
}

impl vstd::std_specs::convert::FromSpecImpl<ExtendedId> for Id {
    open spec fn obeys_from_spec() -> bool {
        true
    }

    open spec fn from_spec(id: ExtendedId) -> Id {
        Id::Extended(id)
    }
}


proof fn lemma_extended_key_injective(a: u32, b: u32)
    requires
        base_bits(a) == base_bits(b),
        low_bits(a) == low_bits(b),
    ensures
        a == b,
{
    assert(a >> 18u32 <= 0x3FFFu32 && b >> 18u32 <= 0x3FFFu32) by (bit_vector);
    assert(a >> 18u32 == b >> 18u32);
    assert(a == b) by (bit_vector)
        requires
            a >> 18u32 == b >> 18u32,
            a & 0x3FFFFu32 == b & 0x3FFFFu32,
    ;
}

/// The raw value determines a standard identifier: reading it back with
/// `as_raw` and handing it to `new` gives the same identifier again.
pub proof fn lemma_standard_raw_determines(a: StandardId, b: StandardId)
    ensures
        a@ == b@ <==> a == b,
{
}

/// The raw value determines an extended identifier: reading it back with
/// `as_raw` and handing it to `new` gives the same identifier again.
pub proof fn lemma_extended_raw_determines(a: ExtendedId, b: ExtendedId)
    ensures
        a@ == b@ <==> a == b,
{
}

/// Arbitration orders identifiers totally: two identifiers compare equal
/// exactly when they are the same identifier, and `a` is less than `b`
/// exactly when `b` is greater than `a`; so exactly one of less, equal and
/// greater holds between any two.
pub proof fn lemma_arbitration_total(a: Id, b: Id)
    ensures
        a.arbitration_cmp(b) == Ordering::Equal <==> a == b,
        a.arbitration_cmp(b) == Ordering::Less <==> b.arbitration_cmp(a) == Ordering::Greater,
        a.arbitration_cmp(b) == Ordering::Greater <==> b.arbitration_cmp(a) == Ordering::Less,
{
    if a.arbitration_cmp(b) == Ordering::Equal {
        match (a, b) {
            (Id::Standard(x), Id::Standard(y)) => {
                assert(x.0 == y.0);
            },
            (Id::Extended(x), Id::Extended(y)) => {
                lemma_extended_key_injective(x.0, y.0);
            },
            _ => {},
        }
    }
}

/// Arbitration order is transitive.
pub proof fn lemma_arbitration_transitive(a: Id, b: Id, c: Id)
    requires
        a.arbitration_cmp(b) == Ordering::Less,
        b.arbitration_cmp(c) == Ordering::Less,
    ensures
        a.arbitration_cmp(c) == Ordering::Less,
{
}

} // verus!
