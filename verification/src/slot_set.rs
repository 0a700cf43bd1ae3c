use vstd::prelude::*;

verus! {

/// Number of slots a `SlotSet` can hold: indices `0..16`.
pub const SLOT_CAPACITY: u8 = 16;

/// A set of small indices (seat numbers, card slots, batch numbers), kept as
/// one bit per index: bit `i` of `bits` is set exactly when `i` is a member.
#[derive(Clone, Copy, Debug, PartialEq, Eq, Structural)]
pub struct SlotSet {
    pub bits: u16,
}

/// Whether bit `i` of `bits` is set.
pub open spec fn bit_of(bits: u16, i: u16) -> bool {
    (bits >> i) & 1 == 1
}

impl View for SlotSet {
    type V = Set<int>;

    /// The members, as a mathematical set of indices below the capacity.
    open spec fn view(&self) -> Set<int> {
        Set::new(|i: int| 0 <= i < 16 && bit_of(self.bits, i as u16))
    }
}

impl SlotSet {
    /// The members that are smaller than `bound`.
    pub open spec fn below(self, bound: int) -> Set<int> {
        Set::new(|i: int| 0 <= i < bound && self@.contains(i))
    }

    /// Whether every member is smaller than `bound`.
    pub open spec fn within(self, bound: int) -> bool {
        forall|i: int| self@.contains(i) ==> i < bound
    }

    /// Whether every index from 0 up to `bound`, `bound` itself left out, is
    /// a member.
    pub open spec fn covers(self, bound: int) -> bool {
        forall|i: int| 0 <= i < bound ==> self@.contains(i)
    }

    /// The set with `i` added, for an index below the capacity.
    pub open spec fn with(self, i: int) -> SlotSet {
        SlotSet { bits: self.bits | (1u16 << (i as u16)) }
    }

    /// Adding an index adds it to the members and changes nothing else.
    pub proof fn lemma_with(self, i: int)
        requires
            0 <= i < 16,
        ensures
            self.with(i)@ == self@.insert(i),
    {
        assert forall|j: int| self.with(i)@.contains(j) == self@.insert(i).contains(j) by {
            if 0 <= j < 16 {
                lemma_set_bit(self.bits, i as u16, j as u16);
            }
        }
        assert(self.with(i)@ =~= self@.insert(i));
    }

    /// The set with no member.
    pub fn empty() -> (s: SlotSet)
        ensures
            s@ == Set::<int>::empty(),
            s.bits == 0,
    {
        let s = SlotSet { bits: 0 };
        proof {
            assert forall|i: int| !(#[trigger] s@.contains(i)) by {
                if 0 <= i < 16 {
                    lemma_zero_has_no_bit(i as u16);
                }
            }
            assert(s@ =~= Set::<int>::empty());
        }
        s
    }

    /// Membership test. An index at or beyond the capacity is no member.
    pub fn contains(&self, i: u8) -> (r: bool)
        ensures
            r == self@.contains(i as int),
    {
        if i >= SLOT_CAPACITY {
            return false;
        }
        (self.bits >> (i as u16)) & 1 == 1
    }

    /// Adds `i`; every other index keeps its membership.
    pub fn insert(&mut self, i: u8)
        requires
            i < 16,
        ensures
            *final(self) == old(self).with(i as int),
            final(self)@ == old(self)@.insert(i as int),
    {
        proof {
            self.lemma_with(i as int);
        }
        self.bits = self.bits | (1u16 << (i as u16));
    }

    /// Whether the set has no member.
    pub fn is_empty(&self) -> (r: bool)
        ensures
            r == (self@ == Set::<int>::empty()),
    {
        proof {
            if self.bits == 0 {
                assert forall|i: int| !(#[trigger] self@.contains(i)) by {
                    if 0 <= i < 16 {
                        lemma_zero_has_no_bit(i as u16);
                    }
                }
                assert(self@ =~= Set::<int>::empty());
            } else {
                let i = lemma_nonzero_has_bit(self.bits);
                assert(self@.contains(i as int));
            }
        }
        self.bits == 0
    }

    /// Whether every index below `n` is a member.
    pub fn contains_first_n(&self, n: u8) -> (r: bool)
        requires
            n <= 16,
        ensures
            r == self.covers(n as int),
    {
        let mut i: u8 = 0;
        while i < n
            invariant
                i <= n <= 16,
                forall|k: int| 0 <= k < i ==> self@.contains(k),
            decreases n - i,
        {
            if !self.contains(i) {
                return false;
            }
            i += 1;
        }
        true
    }

    /// Whether every member is smaller than `bound`.
    pub fn fits_within(&self, bound: u8) -> (r: bool)
        ensures
            r == self.within(bound as int),
    {
        let mut i: u8 = bound;
        while i < SLOT_CAPACITY
            invariant
                bound <= i,
                forall|k: int| bound <= k < i ==> !self@.contains(k),
            decreases 16 - i,
        {
            if self.contains(i) {
                return false;
            }
            i += 1;
        }
        true
    }

    /// Whether the members are exactly the indices below `n`.
    pub fn is_first_n(&self, n: u8) -> (r: bool)
        requires
            n <= 16,
        ensures
            r == (self@ =~= Set::new(|i: int| 0 <= i < n)),
    {
        let r = self.fits_within(n) && self.contains_first_n(n);
        proof {
            let range = Set::new(|i: int| 0 <= i < n);
            if r {
                assert(self@ =~= range);
            }
            if self@ =~= range {
                assert forall|i: int| self@.contains(i) implies i < n by {
                    assert(range.contains(i));
                }
                assert forall|i: int| 0 <= i < n implies self@.contains(i) by {
                    assert(range.contains(i));
                }
            }
        }
        r
    }

    /// The number of members.
    pub fn count(&self) -> (n: u8)
        ensures
            n == self@.len(),
            n <= 16,
    {
        let mut n: u8 = 0;
        let mut i: u8 = 0;
        proof {
            assert(self.below(0) =~= Set::<int>::empty());
        }
        while i < SLOT_CAPACITY
            invariant
                i <= 16,
                n <= i,
                self.below(i as int).finite(),
                n == self.below(i as int).len(),
            decreases 16 - i,
        {
            proof {
                if self@.contains(i as int) {
                    assert(self.below(i + 1) =~= self.below(i as int).insert(i as int));
                } else {
                    assert(self.below(i + 1) =~= self.below(i as int));
                }
            }
            if self.contains(i) {
                n += 1;
            }
            i += 1;
        }
        proof {
            assert(self.below(16) =~= self@);
        }
        n
    }

    /// A slot set is finite and has at most as many members as its capacity.
    pub proof fn lemma_finite(self)
        ensures
            self@.finite(),
            self@.len() <= 16,
    {
        self.lemma_below_finite(16);
        assert(self.below(16) =~= self@);
    }

    /// The members below a bound are finitely many, at most `bound` of them.
    pub proof fn lemma_below_finite(self, bound: int)
        requires
            0 <= bound,
        ensures
            self.below(bound).finite(),
            self.below(bound).len() <= bound,
        decreases bound,
    {
        if bound == 0 {
            assert(self.below(0) =~= Set::<int>::empty());
        } else {
            self.lemma_below_finite(bound - 1);
            if self@.contains(bound - 1) {
                assert(self.below(bound) =~= self.below(bound - 1).insert(bound - 1));
            } else {
                assert(self.below(bound) =~= self.below(bound - 1));
            }
        }
    }

    /// Two slot sets with the same members are the same value.
    pub proof fn lemma_same_members(self, other: SlotSet)
        requires
            self@ == other@,
        ensures
            self == other,
    {
        let a = self.bits;
        let b = other.bits;
        assert forall|i: u16| i < 16 implies bit_of(a, i) == bit_of(b, i) by {
            let k = i as int;
            assert(k as u16 == i);
            assert(self@.contains(k) == bit_of(a, i));
            assert(other@.contains(k) == bit_of(b, i));
        }
        lemma_bits_determine(a, b);
    }
}

/// No bit of zero is set.
pub proof fn lemma_zero_has_no_bit(i: u16)
    requires
        i < 16,
    ensures
        !bit_of(0, i),
{
    assert((0u16 >> i) & 1 != 1) by (bit_vector)
        requires
            i < 16,
    ;
}

/// Setting bit `i` makes it set and leaves every other bit as it was.
pub proof fn lemma_set_bit(bits: u16, i: u16, j: u16)
    requires
        i < 16,
        j < 16,
    ensures
        bit_of(bits | (1u16 << i), j) == (j == i || bit_of(bits, j)),
{
    assert((((bits | (1u16 << i)) >> j) & 1 == 1) == (j == i || (bits >> j) & 1 == 1))
        by (bit_vector)
        requires
            i < 16,
            j < 16,
    ;
}

/// A value other than zero has some bit set.
pub proof fn lemma_nonzero_has_bit(bits: u16) -> (i: u16)
    requires
        bits != 0,
    ensures
        i < 16,
        bit_of(bits, i),
{
    assert((bits >> 0u16) & 1 == 1 || (bits >> 1u16) & 1 == 1 || (bits >> 2u16) & 1 == 1 || (bits
        >> 3u16) & 1 == 1 || (bits >> 4u16) & 1 == 1 || (bits >> 5u16) & 1 == 1 || (bits >> 6u16)
        & 1 == 1 || (bits >> 7u16) & 1 == 1 || (bits >> 8u16) & 1 == 1 || (bits >> 9u16) & 1 == 1
        || (bits >> 10u16) & 1 == 1 || (bits >> 11u16) & 1 == 1 || (bits >> 12u16) & 1 == 1 || (
    bits >> 13u16) & 1 == 1 || (bits >> 14u16) & 1 == 1 || (bits >> 15u16) & 1 == 1)
        by (bit_vector)
        requires
            bits != 0,
    ;
    if bit_of(bits, 0) {
        0
    } else if bit_of(bits, 1) {
        1
    } else if bit_of(bits, 2) {
        2
    } else if bit_of(bits, 3) {
        3
    } else if bit_of(bits, 4) {
        4
    } else if bit_of(bits, 5) {
        5
    } else if bit_of(bits, 6) {
        6
    } else if bit_of(bits, 7) {
        7
    } else if bit_of(bits, 8) {
        8
    } else if bit_of(bits, 9) {
        9
    } else if bit_of(bits, 10) {
        10
    } else if bit_of(bits, 11) {
        11
    } else if bit_of(bits, 12) {
        12
    } else if bit_of(bits, 13) {
        13
    } else if bit_of(bits, 14) {
        14
    } else {
        15
    }
}

/// Two values that agree on each of their sixteen bits are equal.
pub proof fn lemma_bits_determine(a: u16, b: u16)
    requires
        forall|i: u16| i < 16 ==> bit_of(a, i) == bit_of(b, i),
    ensures
        a == b,
{
    if a != b {
        assert(a ^ b != 0) by (bit_vector)
            requires
                a != b,
        ;
        let i = lemma_nonzero_has_bit(a ^ b);
        assert(((a ^ b) >> i) & 1 == 1 ==> ((a >> i) & 1 == 1) != ((b >> i) & 1 == 1))
            by (bit_vector)
            requires
                i < 16,
        ;
        assert(bit_of(a, i) == bit_of(b, i));
    }
}

} // verus!
