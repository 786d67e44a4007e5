//! `PermissionBits`: the owner, group and other permission triples of a file,
//! packed into and out of the low nine bits of a Unix mode.
use vstd::prelude::*;

use crate::classes::Classes;
use crate::mode_bits::{lemma_mode_of_bits, mode_of, ModeBits, ALL_MODE_BITS};

verus! {

/// The nine mode bits that hold permissions: `rwx` for owner, group and other.
pub const PERMISSION_MASK: i32 = 0o777;

/// The permissions of owner, group and other, each a `ModeBits`.
///
/// As a number this is `owner << 6 | group << 3 | other`, the layout of the low
/// nine bits of a Unix file mode.
#[derive(Clone, Copy, Debug)]
pub struct PermissionBits {
    pub owner_bits: ModeBits,
    pub group_bits: ModeBits,
    pub other_bits: ModeBits,
}

impl PermissionBits {
    /// The 9-bit mode that this value stands for.
    pub open spec fn spec_bits(&self) -> i32 {
        (self.owner_bits.bits() << 6) | (self.group_bits.bits() << 3) | self.other_bits.bits()
    }

    /// The value that the low nine bits of `raw` stand for, each triple in
    /// normal form.
    pub open spec fn spec_from_bits_truncated(raw: i32) -> PermissionBits {
        PermissionBits {
            owner_bits: mode_of((raw & 0o700) >> 6),
            group_bits: mode_of((raw & 0o070) >> 3),
            other_bits: mode_of(raw & 0o007),
        }
    }

    /// Whether each of the three triples is in normal form.
    pub open spec fn is_normal(self) -> bool {
        &&& self.owner_bits.is_normal()
        &&& self.group_bits.is_normal()
        &&& self.other_bits.is_normal()
    }

    /// `self` with `f` applied to each triple whose class `classes` selects.
    pub open spec fn apply_selected(
        self,
        classes: Classes,
        f: spec_fn(ModeBits) -> ModeBits,
    ) -> PermissionBits {
        PermissionBits {
            owner_bits: if classes.bits() & 0b100 != 0 {
                f(self.owner_bits)
            } else {
                self.owner_bits
            },
            group_bits: if classes.bits() & 0b010 != 0 {
                f(self.group_bits)
            } else {
                self.group_bits
            },
            other_bits: if classes.bits() & 0b001 != 0 {
                f(self.other_bits)
            } else {
                self.other_bits
            },
        }
    }

    /// `self` with `bits` added to each triple that `classes` selects.
    pub open spec fn spec_insert(self, classes: Classes, bits: ModeBits) -> PermissionBits {
        self.apply_selected(classes, |m: ModeBits| m.combine(bits))
    }

    /// `self` with `bits` taken out of each triple that `classes` selects.
    pub open spec fn spec_remove(self, classes: Classes, bits: ModeBits) -> PermissionBits {
        self.apply_selected(classes, |m: ModeBits| mode_of(m.bits() & !bits.bits()))
    }

    /// Builds the value from its three triples.
    pub fn new(owner_bits: ModeBits, group_bits: ModeBits, other_bits: ModeBits) -> (r: Self)
        ensures
            r.owner_bits == owner_bits,
            r.group_bits == group_bits,
            r.other_bits == other_bits,
    {
        PermissionBits { owner_bits, group_bits, other_bits }
    }

    /// The value of a 9-bit mode, or `None` where `bits` has any bit set above
    /// the low nine.
    pub fn from_bits(bits: i32) -> (r: Option<Self>)
        ensures
            r is None <==> bits & !PERMISSION_MASK != 0,
            r is Some ==> r->Some_0 == PermissionBits::from_bits_truncated(bits),
            r is Some ==> r->Some_0.bits() == bits,
    {
        if bits & !PERMISSION_MASK != 0 {
            None
        } else {
            let p = PermissionBits::from_bits_truncated(bits);
            assert(bits & !511 == 0 ==> bits & 511 == bits) by (bit_vector);
            Some(p)
        }
    }

    /// The value of the low nine bits of `bits`; higher bits are ignored.
    #[verifier::when_used_as_spec(spec_from_bits_truncated)]
    pub fn from_bits_truncated(bits: i32) -> (r: Self)
        ensures
            r == PermissionBits::spec_from_bits_truncated(bits),
            r.bits() == bits & PERMISSION_MASK,
            r.is_normal(),
    {
        let owner = ModeBits::from((bits & 0o700) >> 6);
        let group = ModeBits::from((bits & 0o070) >> 3);
        let other = ModeBits::from(bits & 0o007);
        let (o, g, x) = ((bits & 0o700) >> 6, (bits & 0o070) >> 3, bits & 0o007);
        assert(o & 7 == o && g & 7 == g && x & 7 == x && 0 <= o <= 7 && 0 <= g <= 7 && 0 <= x
            <= 7 && (o << 6) | (g << 3) | x == bits & 511) by (bit_vector)
            requires
                o == (bits & 448) >> 6,
                g == (bits & 56) >> 3,
                x == bits & 7,
        ;
        proof {
            lemma_mode_of_bits(o);
            lemma_mode_of_bits(g);
            lemma_mode_of_bits(x);
        }
        PermissionBits::new(owner, group, other)
    }

    /// No permission for anybody.
    pub fn empty() -> (r: Self)
        ensures
            r.owner_bits == ModeBits::Null,
            r.group_bits == ModeBits::Null,
            r.other_bits == ModeBits::Null,
            r.bits() == 0,
    {
        assert((0i32 << 6) | (0i32 << 3) | 0i32 == 0) by (bit_vector);
        PermissionBits {
            owner_bits: ModeBits::Null,
            group_bits: ModeBits::Null,
            other_bits: ModeBits::Null,
        }
    }

    /// Every permission for everybody.
    pub fn all() -> (r: Self)
        ensures
            r.owner_bits == ModeBits::AllBits,
            r.group_bits == ModeBits::AllBits,
            r.other_bits == ModeBits::AllBits,
            r.bits() == PERMISSION_MASK,
    {
        assert((7i32 << 6) | (7i32 << 3) | 7i32 == 511) by (bit_vector);
        PermissionBits {
            owner_bits: ModeBits::AllBits,
            group_bits: ModeBits::AllBits,
            other_bits: ModeBits::AllBits,
        }
    }

    /// The 9-bit mode: `owner << 6 | group << 3 | other`.
    #[verifier::when_used_as_spec(spec_bits)]
    pub fn bits(&self) -> (r: i32)
        ensures
            r == self.spec_bits(),
            0 <= r <= PERMISSION_MASK,
    {
        let (o, g, x) = (self.owner_bits.bits(), self.group_bits.bits(), self.other_bits.bits());
        assert(0 <= (o << 6) | (g << 3) | x <= 511) by (bit_vector)
            requires
                0 <= o <= 7,
                0 <= g <= 7,
                0 <= x <= 7,
        ;
        (o << 6) | (g << 3) | x
    }

    /// The 9-bit mode; the same as `bits`.
    #[verifier::when_used_as_spec(spec_bits)]
    pub fn to_bits(&self) -> (r: i32)
        ensures
            r == self.spec_bits(),
            0 <= r <= PERMISSION_MASK,
    {
        self.bits()
    }
    /// Whether no class has any permission.
    pub fn is_empty(&self) -> (r: bool)
        ensures
            r == (self.owner_bits.bits() == 0 && self.group_bits.bits() == 0
                && self.other_bits.bits() == 0),
    {
        self.owner_bits.is_empty() && self.group_bits.is_empty() && self.other_bits.is_empty()
    }

    /// Whether every class has every permission.
    pub fn is_all(&self) -> (r: bool)
        ensures
            r == (self.owner_bits.bits() == ALL_MODE_BITS && self.group_bits.bits()
                == ALL_MODE_BITS && self.other_bits.bits() == ALL_MODE_BITS),
    {
        self.owner_bits.is_all() && self.group_bits.is_all() && self.other_bits.is_all()
    }

    /// Whether, in each of the three classes, the two values share a
    /// permission.
    pub fn intersects(&self, other: PermissionBits) -> (r: bool)
        ensures
            r == (self.owner_bits.bits() & other.owner_bits.bits() != 0
                && self.group_bits.bits() & other.group_bits.bits() != 0
                && self.other_bits.bits() & other.other_bits.bits() != 0),
    {
        self.owner_bits.intersects(other.owner_bits) && self.group_bits.intersects(
            other.group_bits,
        ) && self.other_bits.intersects(other.other_bits)
    }

    /// Whether, in each of the three classes, `self` holds every permission
    /// that `other` holds.
    pub fn contains(&self, other: PermissionBits) -> (r: bool)
        ensures
            r == (self.owner_bits.bits() & other.owner_bits.bits() == other.owner_bits.bits()
                && self.group_bits.bits() & other.group_bits.bits() == other.group_bits.bits()
                && self.other_bits.bits() & other.other_bits.bits() == other.other_bits.bits()),
    {
        self.owner_bits.contains(other.owner_bits) && self.group_bits.contains(other.group_bits)
            && self.other_bits.contains(other.other_bits)
    }

    /// Adds `bits` to the triple of each class that `classes` selects; the
    /// others stay as they are. Returns the new value.
    pub fn insert(&mut self, classes: Classes, bits: ModeBits) -> (r: Self)
        ensures
            *final(self) == old(self).spec_insert(classes, bits),
            r == *final(self),
    {
        if classes.is_owner_set() {
            self.owner_bits = self.owner_bits.combine(bits);
        }
        if classes.is_group_set() {
            self.group_bits = self.group_bits.combine(bits);
        }
        if classes.is_other_set() {
            self.other_bits = self.other_bits.combine(bits);
        }
        *self
    }

    /// Takes `bits` out of the triple of each class that `classes` selects;
    /// the others stay as they are. Returns the new value.
    pub fn remove(&mut self, classes: Classes, bits: ModeBits) -> (r: Self)
        ensures
            *final(self) == old(self).spec_remove(classes, bits),
            r == *final(self),
    {
        if classes.is_owner_set() {
            self.owner_bits = self.owner_bits.difference(bits);
        }
        if classes.is_group_set() {
            self.group_bits = self.group_bits.difference(bits);
        }
        if classes.is_other_set() {
            self.other_bits = self.other_bits.difference(bits);
        }
        *self
    }

    /// Sets `bits`, combined with what is there, in the triple of each class
    /// that `classes` selects; the others stay as they are. Returns the new
    /// value, so that calls can be chained.
    pub fn set(&mut self, classes: Classes, bits: ModeBits) -> (r: Self)
        ensures
            *final(self) == old(self).spec_insert(classes, bits),
            r == *final(self),
    {
        self.insert(classes, bits)
    }
}

impl PartialEq for PermissionBits {
    fn eq(&self, other: &PermissionBits) -> (r: bool) {
        self.owner_bits.bits() == other.owner_bits.bits() && self.group_bits.bits()
            == other.group_bits.bits() && self.other_bits.bits() == other.other_bits.bits()
    }
}

impl vstd::std_specs::cmp::PartialEqSpecImpl for PermissionBits {
    open spec fn obeys_eq_spec() -> bool {
        true
    }

    open spec fn eq_spec(&self, other: &PermissionBits) -> bool {
        &&& self.owner_bits.bits() == other.owner_bits.bits()
        &&& self.group_bits.bits() == other.group_bits.bits()
        &&& self.other_bits.bits() == other.other_bits.bits()
    }
}

impl Eq for PermissionBits {
}

impl PartialOrd for PermissionBits {
    fn partial_cmp(&self, other: &PermissionBits) -> (r: Option<core::cmp::Ordering>) {
        let (a, b) = (self.bits(), other.bits());
        if a < b {
            Some(core::cmp::Ordering::Less)
        } else if a > b {
            Some(core::cmp::Ordering::Greater)
        } else {
            Some(core::cmp::Ordering::Equal)
        }
    }
}

impl vstd::std_specs::cmp::PartialOrdSpecImpl for PermissionBits {
    open spec fn obeys_partial_cmp_spec() -> bool {
        true
    }

    open spec fn partial_cmp_spec(&self, other: &PermissionBits) -> Option<core::cmp::Ordering> {
        if self.bits() < other.bits() {
            Some(core::cmp::Ordering::Less)
        } else if self.bits() > other.bits() {
            Some(core::cmp::Ordering::Greater)
        } else {
            Some(core::cmp::Ordering::Equal)
        }
    }
}

impl Default for PermissionBits {
    fn default() -> (r: PermissionBits)
        ensures
            r.owner_bits == ModeBits::Null,
            r.group_bits == ModeBits::Null,
            r.other_bits == ModeBits::Null,
    {
        PermissionBits::empty()
    }
}

/// Packing the triples of a 9-bit mode gives back that mode, and splitting
/// the mode of a value in normal form gives back that value.
pub proof fn lemma_round_trip(m: i32, p: PermissionBits)
    requires
        0 <= m <= PERMISSION_MASK,
    ensures
        PermissionBits::from_bits_truncated(m).to_bits() == m,
        p.is_normal() ==> PermissionBits::from_bits_truncated(p.to_bits()) == p,
{
    let t = PermissionBits::from_bits_truncated(m);
    let (o, g, x) = ((m & 0o700) >> 6, (m & 0o070) >> 3, m & 0o007);
    assert(0 <= o <= 7 && 0 <= g <= 7 && 0 <= x <= 7 && (o << 6) | (g << 3) | x == m)
        by (bit_vector)
        requires
            0 <= m <= 511,
            o == (m & 448) >> 6,
            g == (m & 56) >> 3,
            x == m & 7,
    ;
    lemma_mode_of_bits(o);
    lemma_mode_of_bits(g);
    lemma_mode_of_bits(x);
    let (a, b, c) = (p.owner_bits.bits(), p.group_bits.bits(), p.other_bits.bits());
    let v = (a << 6) | (b << 3) | c;
    crate::mode_bits::lemma_bits_range(p.owner_bits);
    crate::mode_bits::lemma_bits_range(p.group_bits);
    crate::mode_bits::lemma_bits_range(p.other_bits);
    assert((v & 448) >> 6 == a && (v & 56) >> 3 == b && v & 7 == c) by (bit_vector)
        requires
            0 <= a <= 7,
            0 <= b <= 7,
            0 <= c <= 7,
            v == (a << 6) | (b << 3) | c,
    ;
}

/// Setting permissions for the owner alone changes the owner's triple alone,
/// whatever the value was before.
pub proof fn lemma_set_owner_only(p: PermissionBits, bits: ModeBits)
    ensures
        p.spec_insert(Classes::Owner, bits).owner_bits == p.owner_bits.combine(bits),
        p.spec_insert(Classes::Owner, bits).group_bits == p.group_bits,
        p.spec_insert(Classes::Owner, bits).other_bits == p.other_bits,
{
    assert(4i32 & 4 != 0 && 4i32 & 2 == 0 && 4i32 & 1 == 0) by (bit_vector);
}

} // verus!
