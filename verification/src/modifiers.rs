//! Modifier keys: the set that an event carries, and its encoding from the
//! bitset that the terminal driver reports.

use vstd::prelude::*;

verus! {

/// Bit of a driver bitset that is set while Shift is held.
pub const PLATFORM_SHIFT: u8 = 0x01;

/// Bit of a driver bitset that is set while Control is held.
pub const PLATFORM_CONTROL: u8 = 0x02;

/// Bit of a driver bitset that is set while Alt is held.
pub const PLATFORM_ALT: u8 = 0x04;

/// Flag of Shift in the value of [`ModifierSet::bits`].
pub const FLAG_SHIFT: u8 = 0x01;

/// Flag of Control in the value of [`ModifierSet::bits`].
pub const FLAG_CONTROL: u8 = 0x02;

/// Flag of Alt in the value of [`ModifierSet::bits`].
pub const FLAG_ALT: u8 = 0x04;

/// A modifier key.
#[derive(Clone, Copy, Debug, PartialEq, Eq, Structural)]
pub enum Modifier {
    Shift,
    Control,
    Alt,
}

impl Modifier {
    /// The flag that stands for this modifier in a [`ModifierSet`].
    pub open spec fn spec_flag(self) -> u8 {
        match self {
            Modifier::Shift => FLAG_SHIFT,
            Modifier::Control => FLAG_CONTROL,
            Modifier::Alt => FLAG_ALT,
        }
    }

    /// The bit that the driver sets for this modifier.
    pub open spec fn platform_bit(self) -> u8 {
        match self {
            Modifier::Shift => PLATFORM_SHIFT,
            Modifier::Control => PLATFORM_CONTROL,
            Modifier::Alt => PLATFORM_ALT,
        }
    }

    /// The flag that stands for this modifier in a [`ModifierSet`].
    #[verifier::when_used_as_spec(spec_flag)]
    pub fn flag(self) -> (flag: u8)
        ensures
            flag == self.spec_flag(),
    {
        match self {
            Modifier::Shift => FLAG_SHIFT,
            Modifier::Control => FLAG_CONTROL,
            Modifier::Alt => FLAG_ALT,
        }
    }
}

/// The modifiers that a driver bitset reports: those whose bit is set in it.
pub open spec fn platform_modifiers(platform: u8) -> Set<Modifier> {
    Set::new(|m: Modifier| platform & m.platform_bit() != 0)
}

/// The byte that stands for a set of modifiers: the sum of the flags of its
/// members.
pub open spec fn flags_of(members: Set<Modifier>) -> int {
    (if members.contains(Modifier::Shift) { FLAG_SHIFT as int } else { 0 })
        + (if members.contains(Modifier::Control) { FLAG_CONTROL as int } else { 0 })
        + (if members.contains(Modifier::Alt) { FLAG_ALT as int } else { 0 })
}

/// The byte that shows a set of modifiers to a host that has flag values of
/// its own: the host's value for no modifier, or-ed with the host's value of
/// each member. An empty set is shown as the absence of modifiers, not as a
/// value.
pub open spec fn spec_host_flags(
    members: Set<Modifier>,
    none: u8,
    shift: u8,
    control: u8,
    alt: u8,
) -> Option<u8> {
    if members == Set::<Modifier>::empty() {
        None
    } else {
        Some(
            none | (if members.contains(Modifier::Shift) { shift } else { 0 }) | (if members.contains(
                Modifier::Control,
            ) { control } else { 0 }) | (if members.contains(Modifier::Alt) { alt } else { 0 }),
        )
    }
}

/// A set of modifier keys, kept as flags in one byte.
///
/// The byte holds no bit but the three flags, so two sets are equal exactly
/// when they hold the same modifiers.
#[derive(Clone, Copy, Debug, PartialEq, Eq, Structural)]
pub struct ModifierSet {
    bits: u8,
}

impl View for ModifierSet {
    type V = Set<Modifier>;

    closed spec fn view(&self) -> Set<Modifier> {
        Set::new(|m: Modifier| self.bits & m.spec_flag() != 0)
    }
}

/// How the three flags behave under `|` and under the mask of all three.
proof fn lemma_flag_algebra(a: u8, b: u8)
    by (bit_vector)
    ensures
        (a | b) & 1 != 0 <==> (a & 1 != 0 || b & 1 != 0),
        (a | b) & 2 != 0 <==> (a & 2 != 0 || b & 2 != 0),
        (a | b) & 4 != 0 <==> (a & 4 != 0 || b & 4 != 0),
        a <= 7 && b <= 7 ==> (a | b) <= 7,
        0u8 & b == 0,
        (a & 7) & 1 == a & 1,
        (a & 7) & 2 == a & 2,
        (a & 7) & 4 == a & 4,
{
}

/// Or-ing nothing to a byte leaves it as it is.
proof fn lemma_or_nothing()
    by (bit_vector)
    ensures
        forall|a: u8| #[trigger] (a | 0u8) == a,
{
}

/// A byte of flags is the sum of the flags that are set in it.
proof fn lemma_flag_sum(a: u8)
    by (bit_vector)
    requires
        a <= 7,
    ensures
        a == (if a & 1 != 0 { 1u8 } else { 0u8 }) + (if a & 2 != 0 { 2u8 } else { 0u8 }) + (if a
            & 4 != 0 { 4u8 } else { 0u8 }),
{
}

impl ModifierSet {
    /// Whether the byte of the set holds nothing but flags. Every set that
    /// a program holds is canonical.
    #[verifier::type_invariant]
    pub closed spec fn canonical(self) -> bool {
        self.bits <= 7
    }

    /// The set of the modifiers in `members`.
    pub closed spec fn of(members: Set<Modifier>) -> ModifierSet {
        ModifierSet { bits: flags_of(members) as u8 }
    }

    /// The set without members.
    pub fn empty() -> (set: ModifierSet)
        ensures
            set == ModifierSet::of(Set::empty()),
            set@ == Set::<Modifier>::empty(),
    {
        let set = ModifierSet { bits: 0 };
        proof {
            assert forall|m: Modifier| !(#[trigger] set@.contains(m)) by {
                lemma_flag_algebra(0, m.spec_flag());
            }
            assert(set@ =~= Set::<Modifier>::empty());
        }
        set
    }

    /// The set whose one member is `modifier`.
    pub fn only(modifier: Modifier) -> (set: ModifierSet)
        ensures
            set == ModifierSet::of(set![modifier]),
            set@ == set![modifier],
    {
        let set = ModifierSet { bits: modifier.flag() };
        proof {
            assert(1u8 & 1 != 0 && 1u8 & 2 == 0 && 1u8 & 4 == 0 && 2u8 & 1 == 0 && 2u8 & 2 != 0
                && 2u8 & 4 == 0 && 4u8 & 1 == 0 && 4u8 & 2 == 0 && 4u8 & 4 != 0) by (bit_vector);
            assert(set@ =~= set![modifier]);
        }
        set
    }

    /// The members of either set.
    pub fn union(self, other: ModifierSet) -> (set: ModifierSet)
        ensures
            set == ModifierSet::of(self@.union(other@)),
            set@ == self@.union(other@),
    {
        proof {
            use_type_invariant(&self);
            use_type_invariant(&other);
            lemma_flag_algebra(self.bits, other.bits);
            lemma_flag_sum(self.bits | other.bits);
        }
        let set = ModifierSet { bits: self.bits | other.bits };
        proof {
            assert(set@ =~= self@.union(other@));
        }
        set
    }

    /// Whether `modifier` is a member.
    pub fn contains(&self, modifier: Modifier) -> (found: bool)
        ensures
            found == self@.contains(modifier),
    {
        (self.bits & modifier.flag()) != 0
    }

    /// Whether the set has no member. An empty set stands for "no
    /// modifiers": a caller shows it as the absence of modifiers, not as a
    /// value of its own.
    pub fn is_empty(&self) -> (none: bool)
        ensures
            none == (self@ == Set::<Modifier>::empty()),
    {
        proof {
            use_type_invariant(self);
            lemma_flag_sum(self.bits);
            if self.bits == 0 {
                assert forall|m: Modifier| !(#[trigger] self@.contains(m)) by {
                    lemma_flag_algebra(0, m.spec_flag());
                }
                assert(self@ =~= Set::<Modifier>::empty());
            } else {
                assert(self@.contains(Modifier::Shift) || self@.contains(Modifier::Control)
                    || self@.contains(Modifier::Alt));
            }
        }
        self.bits == 0
    }

    /// The set in the flag values of a host, which are handed in: `none` for
    /// no modifier and one value for each modifier. There is no byte for an
    /// empty set, which a host shows as the absence of modifiers; for any
    /// other set the byte is `none` or-ed with the values of the members.
    pub fn host_flags(&self, none: u8, shift: u8, control: u8, alt: u8) -> (flags: Option<u8>)
        ensures
            flags == spec_host_flags(self@, none, shift, control, alt),
            flags is None <==> self@ == Set::<Modifier>::empty(),
    {
        if self.is_empty() {
            return None;
        }
        let mut flags = none;
        if self.contains(Modifier::Shift) {
            flags = flags | shift;
        }
        if self.contains(Modifier::Control) {
            flags = flags | control;
        }
        if self.contains(Modifier::Alt) {
            flags = flags | alt;
        }
        proof {
            lemma_or_nothing();
        }
        Some(flags)
    }

    /// The set as one byte: the sum of the flags of its members, and no
    /// other bit.
    pub fn bits(&self) -> (bits: u8)
        ensures
            bits == flags_of(self@),
    {
        proof {
            use_type_invariant(self);
            lemma_flag_sum(self.bits);
        }
        self.bits
    }
}

/// Canonical sets are equal when they have the same members.
pub proof fn lemma_members_decide(a: ModifierSet, b: ModifierSet)
    requires
        a.canonical(),
        b.canonical(),
        a@ == b@,
    ensures
        a == b,
{
    lemma_flag_sum(a.bits);
    lemma_flag_sum(b.bits);
    assert(a@.contains(Modifier::Shift) == (a.bits & 1 != 0));
    assert(a@.contains(Modifier::Control) == (a.bits & 2 != 0));
    assert(a@.contains(Modifier::Alt) == (a.bits & 4 != 0));
    assert(b@.contains(Modifier::Shift) == (b.bits & 1 != 0));
    assert(b@.contains(Modifier::Control) == (b.bits & 2 != 0));
    assert(b@.contains(Modifier::Alt) == (b.bits & 4 != 0));
    assert(a.bits == b.bits);
}

/// The set of members `members` is canonical and has exactly those members.
pub proof fn lemma_of_members(members: Set<Modifier>)
    ensures
        ModifierSet::of(members).canonical(),
        ModifierSet::of(members)@ == members,
{
    let set = ModifierSet::of(members);
    assert(1u8 & 1 != 0 && 1u8 & 2 == 0 && 1u8 & 4 == 0 && 2u8 & 1 == 0 && 2u8 & 2 != 0 && 2u8 & 4
        == 0 && 4u8 & 1 == 0 && 4u8 & 2 == 0 && 4u8 & 4 != 0 && 3u8 & 1 != 0 && 3u8 & 2 != 0 && 3u8
        & 4 == 0 && 5u8 & 1 != 0 && 5u8 & 2 == 0 && 5u8 & 4 != 0 && 6u8 & 1 == 0 && 6u8 & 2 != 0
        && 6u8 & 4 != 0 && 7u8 & 1 != 0 && 7u8 & 2 != 0 && 7u8 & 4 != 0 && 0u8 & 1 == 0 && 0u8 & 2
        == 0 && 0u8 & 4 == 0) by (bit_vector);
    assert forall|m: Modifier| set@.contains(m) == members.contains(m) by {
        match m {
            Modifier::Shift => {},
            Modifier::Control => {},
            Modifier::Alt => {},
        }
    }
    assert(set@ =~= members);
}

/// The modifier set for a driver bitset: Shift, Control and Alt are taken
/// over one by one, each from its own bit, and every other bit of `platform`
/// is ignored. No bitset is refused.
pub fn encode_modifiers(platform: u8) -> (set: ModifierSet)
    ensures
        set == ModifierSet::of(platform_modifiers(platform)),
        set@ == platform_modifiers(platform),
        set@ == Set::<Modifier>::empty() <==> platform & (PLATFORM_SHIFT | PLATFORM_CONTROL
            | PLATFORM_ALT) == 0,
{
    let mut set = ModifierSet::empty();
    if (platform & PLATFORM_SHIFT) != 0 {
        set = set.union(ModifierSet::only(Modifier::Shift));
    }
    if (platform & PLATFORM_CONTROL) != 0 {
        set = set.union(ModifierSet::only(Modifier::Control));
    }
    if (platform & PLATFORM_ALT) != 0 {
        set = set.union(ModifierSet::only(Modifier::Alt));
    }
    proof {
        assert forall|m: Modifier| set@.contains(m) == platform_modifiers(platform).contains(m) by {
            match m {
                Modifier::Shift => {},
                Modifier::Control => {},
                Modifier::Alt => {},
            }
        }
        assert(set@ =~= platform_modifiers(platform));
        use_type_invariant(&set);
        lemma_of_members(platform_modifiers(platform));
        lemma_members_decide(set, ModifierSet::of(platform_modifiers(platform)));
        assert(platform & (1u8 | 2u8 | 4u8) == 0 <==> (platform & 1 == 0 && platform & 2 == 0
            && platform & 4 == 0)) by (bit_vector);
        assert(set@ =~= Set::<Modifier>::empty() <==> (!set@.contains(Modifier::Shift)
            && !set@.contains(Modifier::Control) && !set@.contains(Modifier::Alt)));
    }
    set
}

/// The encoding reads the three modifier bits and nothing else: a modifier is
/// in the encoded set exactly when its bit is set, and bitsets that agree on
/// those three bits give the same set.
pub proof fn lemma_encoding_reads_three_bits(a: u8, b: u8)
    ensures
        forall|m: Modifier|
            ModifierSet::of(platform_modifiers(a))@.contains(m) <==> a & m.platform_bit()
                != 0,
        a & (PLATFORM_SHIFT | PLATFORM_CONTROL | PLATFORM_ALT) == b & (PLATFORM_SHIFT
            | PLATFORM_CONTROL | PLATFORM_ALT) ==> ModifierSet::of(platform_modifiers(a))
            == ModifierSet::of(platform_modifiers(b)),
{
    lemma_of_members(platform_modifiers(a));
    assert((1u8 | 2u8 | 4u8) == 7u8) by (bit_vector);
    if a & 7 == b & 7 {
        lemma_flag_algebra(a, b);
        lemma_flag_algebra(b, a);
        assert(platform_modifiers(a) =~= platform_modifiers(b));
    }
}

} // verus!
