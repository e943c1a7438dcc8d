//! Sets of capability flags packed into one byte.
//!
//! Every family of flags (the features of a Bluetooth proxy, the colour
//! capabilities of a light, ...) is an enum that implements [`Flag`]. A
//! [`FlagSet`] of that family is one byte on the wire and a mathematical set
//! of flags in contracts; sets of different families cannot be mixed.

use core::marker::PhantomData;
use vstd::prelude::*;

verus! {

/// The byte that has only the bit at `position` set.
pub open spec fn bit(position: u8) -> u8 {
    1u8 << position
}

/// A family of named capability bits that share one byte.
pub trait Flag: Sized + Copy {
    /// The position of this flag's bit, counted from the least significant one.
    spec fn spec_position(self) -> u8;

    /// Every flag has its place within the byte.
    proof fn lemma_position_in_byte(self)
        ensures
            self.spec_position() < 8,
    ;

    /// No two flags of a family share a bit.
    proof fn lemma_position_distinct(self, other: Self)
        requires
            self.spec_position() == other.spec_position(),
        ensures
            self == other,
    ;

    fn position(self) -> (position: u8)
        ensures
            position == self.spec_position(),
    ;
}

/// The flags of family `F` whose bit is set in `bits`.
pub open spec fn members<F: Flag>(bits: u8) -> Set<F> {
    Set::new(|flag: F| bits & bit(flag.spec_position()) != 0)
}

/// The byte in which exactly the bits of the listed flags are set.
pub open spec fn bits_of<F: Flag>(flags: Seq<F>) -> u8
    decreases flags.len(),
{
    if flags.len() == 0 {
        0
    } else {
        bits_of(flags.drop_last()) | bit(flags.last().spec_position())
    }
}

/// The byte for a counter that stands for cumulative capabilities: each entry
/// of `table` names the lowest `level` from which its flag is present.
pub open spec fn graded_bits<F: Flag>(table: Seq<(u8, F)>, level: u8) -> u8
    decreases table.len(),
{
    if table.len() == 0 {
        0
    } else if table.last().0 <= level {
        graded_bits(table.drop_last(), level) | bit(table.last().1.spec_position())
    } else {
        graded_bits(table.drop_last(), level)
    }
}

proof fn lemma_bit_or(a: u8, b: u8, m: u8)
    ensures
        ((a | b) & m != 0) <==> (a & m != 0 || b & m != 0),
{
    assert(((a | b) & m != 0) <==> (a & m != 0 || b & m != 0)) by (bit_vector);
}

proof fn lemma_bit_and(a: u8, b: u8, p: u8)
    requires
        p < 8,
    ensures
        ((a & b) & bit(p) != 0) <==> (a & bit(p) != 0 && b & bit(p) != 0),
{
    assert(((a & b) & (1u8 << p) != 0) <==> (a & (1u8 << p) != 0 && b & (1u8 << p) != 0))
        by (bit_vector)
        requires
            p < 8,
    ;
}

proof fn lemma_bit_meets_bit(p: u8, q: u8)
    requires
        p < 8,
        q < 8,
    ensures
        (bit(p) & bit(q) != 0) <==> p == q,
{
    assert(((1u8 << p) & (1u8 << q) != 0) <==> p == q) by (bit_vector)
        requires
            p < 8,
            q < 8,
    ;
}

proof fn lemma_no_bit(m: u8)
    ensures
        0u8 & m == 0,
{
    assert(0u8 & m == 0) by (bit_vector);
}

/// Membership in a union is membership in one of the two sides.
pub proof fn lemma_members_union<F: Flag>(a: u8, b: u8)
    ensures
        members::<F>(a | b) == members::<F>(a).union(members::<F>(b)),
{
    assert forall|flag: F|
        members::<F>(a | b).contains(flag) <==> members::<F>(a).union(members::<F>(b)).contains(
            flag,
        ) by {
        lemma_bit_or(a, b, bit(flag.spec_position()));
    }
}

/// Membership in an intersection is membership in both sides.
pub proof fn lemma_members_intersection<F: Flag>(a: u8, b: u8)
    ensures
        members::<F>(a & b) == members::<F>(a).intersect(members::<F>(b)),
{
    assert forall|flag: F|
        members::<F>(a & b).contains(flag) <==> members::<F>(a).intersect(
            members::<F>(b),
        ).contains(flag) by {
        flag.lemma_position_in_byte();
        lemma_bit_and(a, b, flag.spec_position());
    }
}

/// The byte without any bit holds no flag.
pub proof fn lemma_members_none<F: Flag>()
    ensures
        members::<F>(0) == Set::<F>::empty(),
{
    assert forall|flag: F| !members::<F>(0).contains(flag) by {
        lemma_no_bit(bit(flag.spec_position()));
    }
}

/// The byte of one flag holds that flag and no other.
pub proof fn lemma_members_single<F: Flag>(flag: F)
    ensures
        members::<F>(bit(flag.spec_position())) == Set::<F>::empty().insert(flag),
{
    flag.lemma_position_in_byte();
    assert forall|other: F|
        members::<F>(bit(flag.spec_position())).contains(other) <==> other == flag by {
        other.lemma_position_in_byte();
        lemma_bit_meets_bit(flag.spec_position(), other.spec_position());
        if other.spec_position() == flag.spec_position() {
            flag.lemma_position_distinct(other);
        }
    }
}

/// One more flag at the end of a list sets one more bit.
pub proof fn lemma_bits_of_push<F: Flag>(flags: Seq<F>, flag: F)
    ensures
        bits_of(flags.push(flag)) == bits_of(flags) | bit(flag.spec_position()),
{
    assert(flags.push(flag).drop_last() =~= flags);
}

/// The byte of a list of flags holds the listed flags and no others.
pub proof fn lemma_members_bits_of<F: Flag>(flags: Seq<F>)
    ensures
        members::<F>(bits_of(flags)) == flags.to_set(),
    decreases flags.len(),
{
    if flags.len() == 0 {
        lemma_members_none::<F>();
    } else {
        let front = flags.drop_last();
        let last = flags.last();
        lemma_members_bits_of(front);
        lemma_members_union::<F>(bits_of(front), bit(last.spec_position()));
        lemma_members_single(last);
        assert forall|flag: F| flags.to_set().contains(flag) <==> (front.to_set().contains(flag)
            || flag == last) by {
            if flags.to_set().contains(flag) {
                let i = choose|i: int| 0 <= i < flags.len() && flags[i] == flag;
                if i < flags.len() - 1 {
                    assert(front[i] == flag);
                }
            }
            if front.to_set().contains(flag) {
                let i = choose|i: int| 0 <= i < front.len() && front[i] == flag;
                assert(flags[i] == flag);
            }
            if flag == last {
                assert(flags[flags.len() - 1] == flag);
            }
        }
    }
}

/// A flag is present at a level exactly if the table lists it with a lowest
/// level that has been reached.
pub proof fn lemma_members_graded<F: Flag>(table: Seq<(u8, F)>, level: u8, flag: F)
    ensures
        members::<F>(graded_bits(table, level)).contains(flag) <==> exists|i: int|
            0 <= i < table.len() && #[trigger] table[i].1 == flag && table[i].0 <= level,
    decreases table.len(),
{
    let listed = exists|i: int|
        0 <= i < table.len() && #[trigger] table[i].1 == flag && table[i].0 <= level;
    if table.len() == 0 {
        lemma_members_none::<F>();
    } else {
        let front = table.drop_last();
        let last = table.last();
        lemma_members_graded(front, level, flag);
        let front_listed = exists|i: int|
            0 <= i < front.len() && #[trigger] front[i].1 == flag && front[i].0 <= level;
        assert(listed <==> (front_listed || (last.1 == flag && last.0 <= level))) by {
            if listed {
                let i = choose|i: int|
                    0 <= i < table.len() && #[trigger] table[i].1 == flag && table[i].0 <= level;
                if i < table.len() - 1 {
                    assert(front[i].1 == flag && front[i].0 <= level);
                }
            }
            if front_listed {
                let i = choose|i: int|
                    0 <= i < front.len() && #[trigger] front[i].1 == flag && front[i].0 <= level;
                assert(table[i].1 == flag && table[i].0 <= level);
            }
            if last.1 == flag && last.0 <= level {
                assert(table[table.len() - 1].1 == flag);
            }
        }
        if last.0 <= level {
            lemma_members_union::<F>(graded_bits(front, level), bit(last.1.spec_position()));
            lemma_members_single(last.1);
        }
    }
}

/// Raising the level never takes a flag away.
pub proof fn lemma_graded_monotonic<F: Flag>(table: Seq<(u8, F)>, low: u8, high: u8)
    requires
        low <= high,
    ensures
        members::<F>(graded_bits(table, low)).subset_of(members::<F>(graded_bits(table, high))),
{
    assert forall|flag: F| members::<F>(graded_bits(table, low)).contains(flag) implies members::<
        F,
    >(graded_bits(table, high)).contains(flag) by {
        lemma_members_graded(table, low, flag);
        lemma_members_graded(table, high, flag);
        let i = choose|i: int|
            0 <= i < table.len() && #[trigger] table[i].1 == flag && table[i].0 <= low;
        assert(table[i].1 == flag && table[i].0 <= high);
    }
}

/// A set of flags of one family.
#[derive(Debug)]
pub struct FlagSet<F: Flag> {
    bits: u8,
    family: PhantomData<F>,
}

impl<F: Flag> Clone for FlagSet<F> {
    fn clone(&self) -> (copy: Self)
        ensures
            copy == *self,
    {
        *self
    }
}

impl<F: Flag> Copy for FlagSet<F> {

}

impl<F: Flag> View for FlagSet<F> {
    type V = Set<F>;

    /// The flags that the set holds.
    open spec fn view(&self) -> Set<F> {
        members::<F>(self.spec_bits())
    }
}

impl<F: Flag> FlagSet<F> {
    /// The byte that stands for the set on the wire.
    pub closed spec fn spec_bits(self) -> u8 {
        self.bits
    }

    /// The set without any flag.
    pub fn empty() -> (set: Self)
        ensures
            set.spec_bits() == 0,
            set@ == Set::<F>::empty(),
    {
        proof {
            lemma_members_none::<F>();
        }
        FlagSet { bits: 0, family: PhantomData }
    }

    /// The set that holds `flag` alone.
    pub fn single(flag: F) -> (set: Self)
        ensures
            set.spec_bits() == bit(flag.spec_position()),
            set@ == Set::<F>::empty().insert(flag),
    {
        proof {
            flag.lemma_position_in_byte();
            lemma_members_single(flag);
        }
        FlagSet { bits: 1u8 << flag.position(), family: PhantomData }
    }

    /// The set read from its byte. Every bit is kept, also one that no flag
    /// of the family names yet.
    pub fn from_bits(bits: u8) -> (set: Self)
        ensures
            set.spec_bits() == bits,
    {
        FlagSet { bits, family: PhantomData }
    }

    /// The set read from a wider word: the bits beyond the byte are dropped.
    pub fn from_wide_bits(bits: u32) -> (set: Self)
        ensures
            set.spec_bits() == bits & 0xff,
    {
        let low: u32 = bits & 0xff;
        proof {
            assert(bits & 0xff < 256) by (bit_vector);
        }
        FlagSet { bits: low as u8, family: PhantomData }
    }

    /// The byte that stands for the set on the wire.
    pub fn bits(self) -> (bits: u8)
        ensures
            bits == self.spec_bits(),
    {
        self.bits
    }

    /// Whether the set holds `flag`.
    pub fn contains(self, flag: F) -> (present: bool)
        ensures
            present == self@.contains(flag),
    {
        proof {
            flag.lemma_position_in_byte();
        }
        self.bits & (1u8 << flag.position()) != 0
    }

    /// The set with `flag` added.
    pub fn with(self, flag: F) -> (set: Self)
        ensures
            set.spec_bits() == self.spec_bits() | bit(flag.spec_position()),
            set@ == self@.insert(flag),
    {
        proof {
            flag.lemma_position_in_byte();
            lemma_members_union::<F>(self.bits, bit(flag.spec_position()));
            lemma_members_single(flag);
        }
        FlagSet { bits: self.bits | (1u8 << flag.position()), family: PhantomData }
    }

    /// The flags that either set holds.
    pub fn union(self, other: Self) -> (set: Self)
        ensures
            set.spec_bits() == self.spec_bits() | other.spec_bits(),
            set@ == self@.union(other@),
    {
        proof {
            lemma_members_union::<F>(self.bits, other.bits);
        }
        FlagSet { bits: self.bits | other.bits, family: PhantomData }
    }

    /// The flags that both sets hold.
    pub fn intersection(self, other: Self) -> (set: Self)
        ensures
            set.spec_bits() == self.spec_bits() & other.spec_bits(),
            set@ == self@.intersect(other@),
    {
        proof {
            lemma_members_intersection::<F>(self.bits, other.bits);
        }
        FlagSet { bits: self.bits & other.bits, family: PhantomData }
    }

    /// The set of the listed flags.
    pub fn from_flags(flags: &[F]) -> (set: Self)
        ensures
            set.spec_bits() == bits_of(flags@),
            set@ == flags@.to_set(),
    {
        let mut set = Self::empty();
        let mut i: usize = 0;
        while i < flags.len()
            invariant
                i <= flags.len(),
                set.spec_bits() == bits_of(flags@.take(i as int)),
            decreases flags.len() - i,
        {
            proof {
                assert(flags@.take(i + 1).drop_last() =~= flags@.take(i as int));
            }
            set = set.with(flags[i]);
            i += 1;
        }
        proof {
            assert(flags@.take(i as int) =~= flags@);
            lemma_members_bits_of(flags@);
        }
        set
    }

    /// The set for a counter that stands for cumulative capabilities: the
    /// flags whose entry in `table` names a lowest level up to `level`.
    pub fn graded(table: &[(u8, F)], level: u8) -> (set: Self)
        ensures
            set.spec_bits() == graded_bits(table@, level),
            forall|flag: F|
                set@.contains(flag) <==> exists|i: int|
                    0 <= i < table@.len() && #[trigger] table@[i].1 == flag && table@[i].0
                        <= level,
    {
        let mut set = Self::empty();
        let mut i: usize = 0;
        while i < table.len()
            invariant
                i <= table.len(),
                set.spec_bits() == graded_bits(table@.take(i as int), level),
            decreases table.len() - i,
        {
            proof {
                assert(table@.take(i + 1).drop_last() =~= table@.take(i as int));
            }
            if table[i].0 <= level {
                set = set.with(table[i].1);
            }
            i += 1;
        }
        proof {
            assert(table@.take(i as int) =~= table@);
            assert forall|flag: F|
                set@.contains(flag) <==> exists|i: int|
                    0 <= i < table@.len() && #[trigger] table@[i].1 == flag && table@[i].0
                        <= level by {
                lemma_members_graded(table@, level, flag);
            }
        }
        set
    }
}

} // verus!
