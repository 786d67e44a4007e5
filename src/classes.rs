//! `Classes`: a subset of the three subjects owner, group and other.
use vstd::prelude::*;

verus! {

/// Mask of the owner class.
pub const OWNER_BIT: i32 = 0b100;

/// Mask of the group class.
pub const GROUP_BIT: i32 = 0b010;

/// Mask of the other class.
pub const OTHER_BIT: i32 = 0b001;

/// Mask of all three classes.
pub const ALL_CLASS_BITS: i32 = 0b111;

/// A subset of `{owner, group, other}`: whose permissions a change or a query
/// applies to. Stored as a 3-bit mask with owner at `0b100`, group at `0b010`
/// and other at `0b001`.
///
/// The named variants stand for the common subsets; `Custom` holds any other
/// combination, the empty one included, of which only the low three bits
/// count. Two values are equal, and ordered, by their masks alone.
#[derive(Clone, Copy, Debug)]
pub enum Classes {
    Owner,
    Group,
    Other,
    AllClasses,
    Custom(i32),
}

/// The value that a 3-bit mask is normalised to: the named variant with that
/// mask where there is one, else `Custom`.
pub open spec fn classes_of(m: i32) -> Classes {
    if m == OWNER_BIT {
        Classes::Owner
    } else if m == GROUP_BIT {
        Classes::Group
    } else if m == OTHER_BIT {
        Classes::Other
    } else if m == ALL_CLASS_BITS {
        Classes::AllClasses
    } else {
        Classes::Custom(m)
    }
}

impl Classes {
    /// The owner of the file.
    pub const OWNER: Classes = Classes::Owner;

    /// The file's group.
    pub const GROUP: Classes = Classes::Group;

    /// Everybody else.
    pub const OTHER: Classes = Classes::Other;

    /// Owner, group and other.
    pub const ALL_CLASSES: Classes = Classes::AllClasses;

    /// The 3-bit mask of this value.
    pub open spec fn spec_bits(&self) -> i32 {
        match self {
            Classes::Owner => OWNER_BIT,
            Classes::Group => GROUP_BIT,
            Classes::Other => OTHER_BIT,
            Classes::AllClasses => ALL_CLASS_BITS,
            Classes::Custom(n) => n & ALL_CLASS_BITS,
        }
    }

    /// Whether this value is in normal form: `Custom` is used only for masks
    /// that no named variant has, and holds no bit above the low three.
    pub open spec fn is_normal(self) -> bool {
        self == classes_of(self.spec_bits())
    }

    /// The 3-bit mask of this value.
    #[verifier::when_used_as_spec(spec_bits)]
    pub fn bits(&self) -> (r: i32)
        ensures
            r == self.spec_bits(),
            0 <= r <= ALL_CLASS_BITS,
    {
        proof {
            lemma_low_bits_range();
        }
        match self {
            Classes::Owner => OWNER_BIT,
            Classes::Group => GROUP_BIT,
            Classes::Other => OTHER_BIT,
            Classes::AllClasses => ALL_CLASS_BITS,
            Classes::Custom(n) => *n & ALL_CLASS_BITS,
        }
    }

    /// No class selected.
    pub fn empty() -> (r: Classes)
        ensures
            r.bits() == 0,
            r.is_normal(),
    {
        assert(0i32 & 7 == 0) by (bit_vector);
        Classes::Custom(0)
    }

    /// Whether the owner class is selected.
    pub fn is_owner_set(&self) -> (r: bool)
        ensures
            r == (self.bits() & OWNER_BIT != 0),
    {
        self.bits() & OWNER_BIT != 0
    }

    /// Whether the group class is selected.
    pub fn is_group_set(&self) -> (r: bool)
        ensures
            r == (self.bits() & GROUP_BIT != 0),
    {
        self.bits() & GROUP_BIT != 0
    }

    /// Whether the other class is selected.
    pub fn is_other_set(&self) -> (r: bool)
        ensures
            r == (self.bits() & OTHER_BIT != 0),
    {
        self.bits() & OTHER_BIT != 0
    }

    /// The union of the two selections, in normal form.
    pub fn combine(self, other: Classes) -> (r: Classes)
        ensures
            r == classes_of(self.bits() | other.bits()),
            r.bits() == self.bits() | other.bits(),
            r.is_normal(),
    {
        let (a, b) = (self.bits(), other.bits());
        let m = a | b;
        assert(0 <= a | b <= 7 && (a | b) & 7 == a | b) by (bit_vector)
            requires
                0 <= a <= 7,
                0 <= b <= 7,
        ;
        Classes::from(m)
    }
}

impl From<i32> for Classes {
    /// Keeps the low three bits of `n` and names the result.
    fn from(n: i32) -> (r: Classes) {
        let m = n & ALL_CLASS_BITS;
        proof {
            lemma_low_bits_range();
        }
        if m == OWNER_BIT {
            Classes::Owner
        } else if m == GROUP_BIT {
            Classes::Group
        } else if m == OTHER_BIT {
            Classes::Other
        } else if m == ALL_CLASS_BITS {
            Classes::AllClasses
        } else {
            Classes::Custom(m)
        }
    }
}

impl vstd::std_specs::convert::FromSpecImpl<i32> for Classes {
    open spec fn obeys_from_spec() -> bool {
        true
    }

    open spec fn from_spec(n: i32) -> Classes {
        classes_of(n & ALL_CLASS_BITS)
    }
}

impl PartialEq for Classes {
    fn eq(&self, other: &Classes) -> (r: bool) {
        self.bits() == other.bits()
    }
}

impl vstd::std_specs::cmp::PartialEqSpecImpl for Classes {
    open spec fn obeys_eq_spec() -> bool {
        true
    }

    open spec fn eq_spec(&self, other: &Classes) -> bool {
        self.bits() == other.bits()
    }
}

impl Eq for Classes {
}

impl PartialOrd for Classes {
    fn partial_cmp(&self, other: &Classes) -> (r: Option<core::cmp::Ordering>) {
        let (a, b) = (self.bits(), other.bits());
        if a < b {
            Some(core::cmp::Ordering::Less)
        } else if a > b {
            Some(core::cmp::Ordering::Greater)
        } else {
            Some(core::cmp::Ordering::Equal)
        }
    }
}

impl vstd::std_specs::cmp::PartialOrdSpecImpl for Classes {
    open spec fn obeys_partial_cmp_spec() -> bool {
        true
    }

    open spec fn partial_cmp_spec(&self, other: &Classes) -> Option<core::cmp::Ordering> {
        if self.bits() < other.bits() {
            Some(core::cmp::Ordering::Less)
        } else if self.bits() > other.bits() {
            Some(core::cmp::Ordering::Greater)
        } else {
            Some(core::cmp::Ordering::Equal)
        }
    }
}

impl core::ops::BitOr for Classes {
    type Output = Classes;

    fn bitor(self, rhs: Classes) -> (r: Classes) {
        self.combine(rhs)
    }
}

impl vstd::std_specs::ops::BitOrSpecImpl for Classes {
    open spec fn obeys_bitor_spec() -> bool {
        true
    }

    open spec fn bitor_req(self, rhs: Classes) -> bool {
        true
    }

    open spec fn bitor_spec(self, rhs: Classes) -> Classes {
        classes_of(self.bits() | rhs.bits())
    }
}

proof fn lemma_low_bits_range()
    ensures
        forall|n: i32| 0 <= #[trigger] (n & ALL_CLASS_BITS) <= ALL_CLASS_BITS,
{
    assert forall|n: i32| 0 <= #[trigger] (n & 7) <= 7 by {
        assert(0 <= n & 7 <= 7) by (bit_vector);
    }
}

} // verus!
