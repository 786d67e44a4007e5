//! `ModeBits`: a subset of the three permissions read, write and execute.
use vstd::prelude::*;

verus! {

/// Mask of the read permission.
pub const READ_BIT: i32 = 0b100;

/// Mask of the write permission.
pub const WRITE_BIT: i32 = 0b010;

/// Mask of the execute permission.
pub const EXECUTE_BIT: i32 = 0b001;

/// Mask of all three permissions.
pub const ALL_MODE_BITS: i32 = 0b111;

/// A subset of `{read, write, execute}`, stored as a 3-bit mask with read at
/// `0b100`, write at `0b010` and execute at `0b001`.
///
/// The named variants stand for the common subsets; `Custom` holds any other
/// combination, of which only the low three bits count. Two values are equal,
/// and ordered, by their masks alone, whichever variant produced them.
#[derive(Clone, Copy, Debug)]
pub enum ModeBits {
    Null,
    Read,
    Write,
    Execute,
    AllBits,
    Custom(i32),
}

/// The value that a 3-bit mask is normalised to: the named variant with that
/// mask where there is one, else `Custom`.
pub open spec fn mode_of(m: i32) -> ModeBits {
    if m == 0 {
        ModeBits::Null
    } else if m == READ_BIT {
        ModeBits::Read
    } else if m == WRITE_BIT {
        ModeBits::Write
    } else if m == EXECUTE_BIT {
        ModeBits::Execute
    } else if m == ALL_MODE_BITS {
        ModeBits::AllBits
    } else {
        ModeBits::Custom(m)
    }
}

impl ModeBits {
    /// No permission; as an access mask, existence only.
    pub const NULL: ModeBits = ModeBits::Null;

    /// Read permission.
    pub const READ: ModeBits = ModeBits::Read;

    /// Write permission.
    pub const WRITE: ModeBits = ModeBits::Write;

    /// Execute permission.
    pub const EXECUTE: ModeBits = ModeBits::Execute;

    /// Read, write and execute.
    pub const ALL_BITS: ModeBits = ModeBits::AllBits;

    /// The 3-bit mask of this value.
    pub open spec fn spec_bits(&self) -> i32 {
        match self {
            ModeBits::Null => 0,
            ModeBits::Read => READ_BIT,
            ModeBits::Write => WRITE_BIT,
            ModeBits::Execute => EXECUTE_BIT,
            ModeBits::AllBits => ALL_MODE_BITS,
            ModeBits::Custom(n) => n & ALL_MODE_BITS,
        }
    }

    /// Whether this value is in normal form: `Custom` is used only for masks
    /// that no named variant has, and holds no bit above the low three.
    pub open spec fn is_normal(self) -> bool {
        self == mode_of(self.spec_bits())
    }

    /// The 3-bit mask of this value.
    #[verifier::when_used_as_spec(spec_bits)]
    pub fn bits(&self) -> (r: i32)
        ensures
            r == self.spec_bits(),
            0 <= r <= ALL_MODE_BITS,
    {
        proof {
            lemma_low_bits_range_i32();
        }
        match self {
            ModeBits::Null => 0,
            ModeBits::Read => READ_BIT,
            ModeBits::Write => WRITE_BIT,
            ModeBits::Execute => EXECUTE_BIT,
            ModeBits::AllBits => ALL_MODE_BITS,
            ModeBits::Custom(n) => *n & ALL_MODE_BITS,
        }
    }

    /// Whether the read bit is set.
    pub fn is_read_set(&self) -> (r: bool)
        ensures
            r == (self.bits() & READ_BIT != 0),
    {
        self.bits() & READ_BIT != 0
    }

    /// Whether the write bit is set.
    pub fn is_write_set(&self) -> (r: bool)
        ensures
            r == (self.bits() & WRITE_BIT != 0),
    {
        self.bits() & WRITE_BIT != 0
    }

    /// Whether the execute bit is set.
    pub fn is_execute_set(&self) -> (r: bool)
        ensures
            r == (self.bits() & EXECUTE_BIT != 0),
    {
        self.bits() & EXECUTE_BIT != 0
    }
}

impl ModeBits {
    /// No permission set.
    pub fn empty() -> (r: ModeBits)
        ensures
            r == ModeBits::Null,
            r.bits() == 0,
    {
        ModeBits::Null
    }

    /// All three permissions set.
    pub fn all() -> (r: ModeBits)
        ensures
            r == ModeBits::AllBits,
            r.bits() == ALL_MODE_BITS,
    {
        ModeBits::AllBits
    }

    /// Whether no permission is set.
    pub fn is_empty(&self) -> (r: bool)
        ensures
            r == (self.bits() == 0),
    {
        self.bits() == 0
    }

    /// Whether all three permissions are set.
    pub fn is_all(&self) -> (r: bool)
        ensures
            r == (self.bits() == ALL_MODE_BITS),
    {
        self.bits() == ALL_MODE_BITS
    }

    /// Whether the two values share at least one permission.
    pub fn intersects(&self, other: ModeBits) -> (r: bool)
        ensures
            r == (self.bits() & other.bits() != 0),
    {
        self.bits() & other.bits() != 0
    }

    /// Whether every permission of `other` is in `self`.
    pub fn contains(&self, other: ModeBits) -> (r: bool)
        ensures
            r == (self.bits() & other.bits() == other.bits()),
    {
        self.bits() & other.bits() == other.bits()
    }

    /// The union of the two sets of permissions, in normal form.
    pub open spec fn spec_combine(self, other: ModeBits) -> ModeBits {
        mode_of(self.bits() | other.bits())
    }

    /// The union of the two sets of permissions, in normal form.
    #[verifier::when_used_as_spec(spec_combine)]
    pub fn combine(self, other: ModeBits) -> (r: ModeBits)
        ensures
            r == mode_of(self.bits() | other.bits()),
            r.bits() == self.bits() | other.bits(),
            r.is_normal(),
    {
        let m = self.bits() | other.bits();
        proof {
            lemma_or_in_range(self.bits(), other.bits());
        }
        ModeBits::from(m)
    }

    /// The permissions that both values hold, in normal form.
    pub fn intersection(self, other: ModeBits) -> (r: ModeBits)
        ensures
            r == mode_of(self.bits() & other.bits()),
            r.bits() == self.bits() & other.bits(),
            r.is_normal(),
    {
        let m = self.bits() & other.bits();
        proof {
            lemma_and_in_range(self.bits(), other.bits());
        }
        ModeBits::from(m)
    }

    /// The permissions of `self` that `other` does not hold, in normal form.
    pub fn difference(self, other: ModeBits) -> (r: ModeBits)
        ensures
            r == mode_of(self.bits() & !other.bits()),
            r.bits() == self.bits() & !other.bits(),
            r.is_normal(),
    {
        let m = self.bits() & !other.bits();
        proof {
            lemma_and_not_in_range(self.bits(), other.bits());
        }
        ModeBits::from(m)
    }
}

impl From<i32> for ModeBits {
    /// Keeps the low three bits of `n` and names the result.
    fn from(n: i32) -> (r: ModeBits) {
        let m = n & ALL_MODE_BITS;
        proof {
            lemma_low_bits_range_i32();
        }
        if m == 0 {
            ModeBits::Null
        } else if m == READ_BIT {
            ModeBits::Read
        } else if m == WRITE_BIT {
            ModeBits::Write
        } else if m == EXECUTE_BIT {
            ModeBits::Execute
        } else if m == ALL_MODE_BITS {
            ModeBits::AllBits
        } else {
            ModeBits::Custom(m)
        }
    }
}

impl vstd::std_specs::convert::FromSpecImpl<i32> for ModeBits {
    open spec fn obeys_from_spec() -> bool {
        true
    }

    open spec fn from_spec(n: i32) -> ModeBits {
        mode_of(n & ALL_MODE_BITS)
    }
}

impl PartialEq for ModeBits {
    fn eq(&self, other: &ModeBits) -> (r: bool) {
        self.bits() == other.bits()
    }
}

impl vstd::std_specs::cmp::PartialEqSpecImpl for ModeBits {
    open spec fn obeys_eq_spec() -> bool {
        true
    }

    open spec fn eq_spec(&self, other: &ModeBits) -> bool {
        self.bits() == other.bits()
    }
}

impl Eq for ModeBits {
}

impl PartialOrd for ModeBits {
    fn partial_cmp(&self, other: &ModeBits) -> (r: Option<core::cmp::Ordering>) {
        let (a, b) = (self.bits(), other.bits());
        if a < b {
            Some(core::cmp::Ordering::Less)
        } else if a > b {
            Some(core::cmp::Ordering::Greater)
        } else {
            Some(core::cmp::Ordering::Equal)
        }
    }
}

impl vstd::std_specs::cmp::PartialOrdSpecImpl for ModeBits {
    open spec fn obeys_partial_cmp_spec() -> bool {
        true
    }

    open spec fn partial_cmp_spec(&self, other: &ModeBits) -> Option<core::cmp::Ordering> {
        if self.bits() < other.bits() {
            Some(core::cmp::Ordering::Less)
        } else if self.bits() > other.bits() {
            Some(core::cmp::Ordering::Greater)
        } else {
            Some(core::cmp::Ordering::Equal)
        }
    }
}

impl core::ops::BitOr for ModeBits {
    type Output = ModeBits;

    fn bitor(self, rhs: ModeBits) -> (r: ModeBits) {
        self.combine(rhs)
    }
}

impl vstd::std_specs::ops::BitOrSpecImpl for ModeBits {
    open spec fn obeys_bitor_spec() -> bool {
        true
    }

    open spec fn bitor_req(self, rhs: ModeBits) -> bool {
        true
    }

    open spec fn bitor_spec(self, rhs: ModeBits) -> ModeBits {
        mode_of(self.bits() | rhs.bits())
    }
}

impl core::ops::BitAnd for ModeBits {
    type Output = ModeBits;

    fn bitand(self, rhs: ModeBits) -> (r: ModeBits) {
        self.intersection(rhs)
    }
}

impl vstd::std_specs::ops::BitAndSpecImpl for ModeBits {
    open spec fn obeys_bitand_spec() -> bool {
        true
    }

    open spec fn bitand_req(self, rhs: ModeBits) -> bool {
        true
    }

    open spec fn bitand_spec(self, rhs: ModeBits) -> ModeBits {
        mode_of(self.bits() & rhs.bits())
    }
}

impl Default for ModeBits {
    fn default() -> (r: ModeBits)
        ensures
            r == ModeBits::Null,
    {
        ModeBits::Null
    }
}

proof fn lemma_or_in_range(a: i32, b: i32)
    requires
        0 <= a <= ALL_MODE_BITS,
        0 <= b <= ALL_MODE_BITS,
    ensures
        0 <= a | b <= ALL_MODE_BITS,
        (a | b) & ALL_MODE_BITS == a | b,
{
    assert(0 <= a | b <= 7 && (a | b) & 7 == a | b) by (bit_vector)
        requires
            0 <= a <= 7,
            0 <= b <= 7,
    ;
}

proof fn lemma_and_in_range(a: i32, b: i32)
    requires
        0 <= a <= ALL_MODE_BITS,
        0 <= b <= ALL_MODE_BITS,
    ensures
        0 <= a & b <= ALL_MODE_BITS,
        (a & b) & ALL_MODE_BITS == a & b,
{
    assert(0 <= a & b <= 7 && (a & b) & 7 == a & b) by (bit_vector)
        requires
            0 <= a <= 7,
            0 <= b <= 7,
    ;
}

proof fn lemma_and_not_in_range(a: i32, b: i32)
    requires
        0 <= a <= ALL_MODE_BITS,
        0 <= b <= ALL_MODE_BITS,
    ensures
        0 <= a & !b <= ALL_MODE_BITS,
        (a & !b) & ALL_MODE_BITS == a & !b,
{
    assert(0 <= a & !b <= 7 && (a & !b) & 7 == a & !b) by (bit_vector)
        requires
            0 <= a <= 7,
            0 <= b <= 7,
    ;
}

/// For every mask `m` of three bits, `mode_of(m)` has mask `m` and is in
/// normal form.
pub proof fn lemma_mode_of_bits(m: i32)
    requires
        0 <= m <= ALL_MODE_BITS,
    ensures
        mode_of(m).bits() == m,
        mode_of(m).is_normal(),
{
    assert(m & 7 == m) by (bit_vector)
        requires
            0 <= m <= 7,
    ;
}

/// Converting the mask of any value back with `ModeBits::from` gives a value
/// with the same mask, and, for a value in normal form, that very value.
/// Combining a value with itself leaves its mask as it was.
pub proof fn lemma_normalization(a: ModeBits)
    ensures
        <ModeBits as vstd::std_specs::convert::FromSpec<i32>>::from_spec(a.bits()).bits() == a.bits(),
        a.is_normal() ==> <ModeBits as vstd::std_specs::convert::FromSpec<i32>>::from_spec(a.bits()) == a,
        a.combine(a).bits() == a.bits(),
        a.is_normal() ==> a.combine(a) == a,
{
    let m = a.bits();
    lemma_low_bits_range_i32();
    assert(m & 7 == m && m | m == m) by (bit_vector)
        requires
            0 <= m <= 7,
    ;
    lemma_mode_of_bits(m);
}

/// Combining is commutative.
pub proof fn lemma_combine_commutative(a: ModeBits, b: ModeBits)
    ensures
        a.combine(b) == b.combine(a),
{
    let (x, y) = (a.bits(), b.bits());
    assert(x | y == y | x) by (bit_vector);
}

/// Combining is associative.
pub proof fn lemma_combine_associative(a: ModeBits, b: ModeBits, c: ModeBits)
    ensures
        a.combine(b).combine(c) == a.combine(b.combine(c)),
{
    let (x, y, z) = (a.bits(), b.bits(), c.bits());
    lemma_low_bits_range_i32();
    lemma_or_in_range(x, y);
    lemma_or_in_range(y, z);
    lemma_mode_of_bits(x | y);
    lemma_mode_of_bits(y | z);
    assert((x | y) | z == x | (y | z)) by (bit_vector);
}

/// Combining with the empty value keeps the mask, and a value in normal form
/// itself; combining with the full value gives the full value.
pub proof fn lemma_combine_identity_and_full(a: ModeBits)
    ensures
        a.combine(ModeBits::Null).bits() == a.bits(),
        a.is_normal() ==> a.combine(ModeBits::Null) == a,
        a.combine(ModeBits::AllBits) == ModeBits::AllBits,
{
    let m = a.bits();
    lemma_low_bits_range_i32();
    assert(m | 0 == m && m | 7 == 7) by (bit_vector)
        requires
            0 <= m <= 7,
    ;
    lemma_mode_of_bits(m);
}

/// The mask of any value has three bits at most.
pub proof fn lemma_bits_range(m: ModeBits)
    ensures
        0 <= m.bits() <= ALL_MODE_BITS,
{
    lemma_low_bits_range_i32();
}

proof fn lemma_low_bits_range_i32()
    ensures
        forall|n: i32| 0 <= #[trigger] (n & ALL_MODE_BITS) <= ALL_MODE_BITS,
{
    assert forall|n: i32| 0 <= #[trigger] (n & 7) <= 7 by {
        assert(0 <= n & 7 <= 7) by (bit_vector);
    }
}

} // verus!
