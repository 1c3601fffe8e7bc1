//! The capability flags a device model can announce, and a bitset over
//! them. Bit positions follow the enumeration order and are stable; set
//! membership, not ordering, is what carries meaning.
use vstd::prelude::*;

verus! {

/// The feature switches a device model can support.
#[allow(non_camel_case_types)]
#[derive(Clone, Copy, Debug, PartialEq, Eq, Structural, Hash, PartialOrd, Ord)]
pub enum SoundcoreFeatureFlags {
    SOUND_MODE,
    ANC_MODE,
    TRANS_MODE,
    CUSTOM_ANC,
    EQ,
    STEREO_EQ,
    DRC,
    HEARID,
    WEAR_DETECTION,
    CUSTOM_BUTTONS,
    TOUCH_TONE,
    GAME_MODE,
    AUTO_POWER_OFF_ON,
}

/// The bit position of a flag: its place in the enumeration order.
pub open spec fn spec_flag_bit(f: SoundcoreFeatureFlags) -> u16 {
    match f {
        SoundcoreFeatureFlags::SOUND_MODE => 0u16,
        SoundcoreFeatureFlags::ANC_MODE => 1u16,
        SoundcoreFeatureFlags::TRANS_MODE => 2u16,
        SoundcoreFeatureFlags::CUSTOM_ANC => 3u16,
        SoundcoreFeatureFlags::EQ => 4u16,
        SoundcoreFeatureFlags::STEREO_EQ => 5u16,
        SoundcoreFeatureFlags::DRC => 6u16,
        SoundcoreFeatureFlags::HEARID => 7u16,
        SoundcoreFeatureFlags::WEAR_DETECTION => 8u16,
        SoundcoreFeatureFlags::CUSTOM_BUTTONS => 9u16,
        SoundcoreFeatureFlags::TOUCH_TONE => 10u16,
        SoundcoreFeatureFlags::GAME_MODE => 11u16,
        SoundcoreFeatureFlags::AUTO_POWER_OFF_ON => 12u16,
    }
}

/// Membership of a flag in a bitset value.
pub open spec fn spec_contains_flag(bits: u16, f: SoundcoreFeatureFlags) -> bool {
    (bits >> spec_flag_bit(f)) & 1 == 1
}

/// Every bit position is below sixteen.
pub proof fn lemma_flag_bit_small(f: SoundcoreFeatureFlags)
    ensures
        spec_flag_bit(f) < 13,
{
}

/// Distinct flags occupy distinct bits: bit positions follow the
/// enumeration order, so membership of one flag never disturbs another.
pub proof fn lemma_flag_bits_distinct(f: SoundcoreFeatureFlags, g: SoundcoreFeatureFlags)
    ensures
        f != g ==> spec_flag_bit(f) != spec_flag_bit(g),
{
}

/// The bit position of a flag, as the wire carries it.
pub fn flag_bit(f: SoundcoreFeatureFlags) -> (r: u16)
    ensures
        r == spec_flag_bit(f),
        r < 13,
{
    match f {
        SoundcoreFeatureFlags::SOUND_MODE => 0,
        SoundcoreFeatureFlags::ANC_MODE => 1,
        SoundcoreFeatureFlags::TRANS_MODE => 2,
        SoundcoreFeatureFlags::CUSTOM_ANC => 3,
        SoundcoreFeatureFlags::EQ => 4,
        SoundcoreFeatureFlags::STEREO_EQ => 5,
        SoundcoreFeatureFlags::DRC => 6,
        SoundcoreFeatureFlags::HEARID => 7,
        SoundcoreFeatureFlags::WEAR_DETECTION => 8,
        SoundcoreFeatureFlags::CUSTOM_BUTTONS => 9,
        SoundcoreFeatureFlags::TOUCH_TONE => 10,
        SoundcoreFeatureFlags::GAME_MODE => 11,
        SoundcoreFeatureFlags::AUTO_POWER_OFF_ON => 12,
    }
}

/// A set of feature flags, packed into the 16-bit word the protocol
/// uses.
#[derive(Clone, Copy, Debug, PartialEq, Eq, Structural)]
pub struct FeatureFlagSet {
    pub bits: u16,
}

impl FeatureFlagSet {
    /// The empty set.
    pub fn empty() -> (r: FeatureFlagSet)
        ensures
            r.bits == 0,
            forall|f: SoundcoreFeatureFlags| !spec_contains_flag(r.bits, f),
    {
        proof {
            assert forall|f: SoundcoreFeatureFlags| !spec_contains_flag(0u16, f) by {
                let b = spec_flag_bit(f);
                assert((0u16 >> b) & 1 == 0) by (bit_vector);
            }
        }
        FeatureFlagSet { bits: 0 }
    }

    /// Adds one flag; every other flag's membership is untouched.
    pub fn insert(&mut self, f: SoundcoreFeatureFlags)
        ensures
            spec_contains_flag(final(self).bits, f),
            forall|g: SoundcoreFeatureFlags|
                g != f ==> spec_contains_flag(final(self).bits, g) == spec_contains_flag(
                    old(self).bits,
                    g,
                ),
    {
        let b = flag_bit(f);
        let ghost old_bits = self.bits;
        self.bits = self.bits | (1u16 << b);
        proof {
            let ghost new_bits = self.bits;
            assert((new_bits >> b) & 1 == 1) by (bit_vector)
                requires
                    new_bits == old_bits | (1u16 << b),
                    b < 13,
            ;
            assert forall|g: SoundcoreFeatureFlags|
                g != f implies spec_contains_flag(new_bits, g) == spec_contains_flag(
                old_bits,
                g,
            ) by {
                let bg = spec_flag_bit(g);
                lemma_flag_bit_small(g);
                lemma_flag_bits_distinct(f, g);
                assert((new_bits >> bg) & 1 == (old_bits >> bg) & 1) by (bit_vector)
                    requires
                        new_bits == old_bits | (1u16 << b),
                        b < 13,
                        bg < 13,
                        b != bg,
                ;
            }
        }
    }

    /// Membership test.
    pub fn contains(&self, f: SoundcoreFeatureFlags) -> (r: bool)
        ensures
            r == spec_contains_flag(self.bits, f),
    {
        let b = flag_bit(f);
        (self.bits >> b) & 1 == 1
    }
}

/// Every flag, in enumeration order.
pub fn all_flags() -> (r: Vec<SoundcoreFeatureFlags>)
    ensures
        r@ == seq![
            SoundcoreFeatureFlags::SOUND_MODE,
            SoundcoreFeatureFlags::ANC_MODE,
            SoundcoreFeatureFlags::TRANS_MODE,
            SoundcoreFeatureFlags::CUSTOM_ANC,
            SoundcoreFeatureFlags::EQ,
            SoundcoreFeatureFlags::STEREO_EQ,
            SoundcoreFeatureFlags::DRC,
            SoundcoreFeatureFlags::HEARID,
            SoundcoreFeatureFlags::WEAR_DETECTION,
            SoundcoreFeatureFlags::CUSTOM_BUTTONS,
            SoundcoreFeatureFlags::TOUCH_TONE,
            SoundcoreFeatureFlags::GAME_MODE,
            SoundcoreFeatureFlags::AUTO_POWER_OFF_ON,
        ],
{
    let mut v: Vec<SoundcoreFeatureFlags> = Vec::new();
    v.push(SoundcoreFeatureFlags::SOUND_MODE);
    v.push(SoundcoreFeatureFlags::ANC_MODE);
    v.push(SoundcoreFeatureFlags::TRANS_MODE);
    v.push(SoundcoreFeatureFlags::CUSTOM_ANC);
    v.push(SoundcoreFeatureFlags::EQ);
    v.push(SoundcoreFeatureFlags::STEREO_EQ);
    v.push(SoundcoreFeatureFlags::DRC);
    v.push(SoundcoreFeatureFlags::HEARID);
    v.push(SoundcoreFeatureFlags::WEAR_DETECTION);
    v.push(SoundcoreFeatureFlags::CUSTOM_BUTTONS);
    v.push(SoundcoreFeatureFlags::TOUCH_TONE);
    v.push(SoundcoreFeatureFlags::GAME_MODE);
    v.push(SoundcoreFeatureFlags::AUTO_POWER_OFF_ON);
    proof {
        assert(v@ =~= seq![
            SoundcoreFeatureFlags::SOUND_MODE,
            SoundcoreFeatureFlags::ANC_MODE,
            SoundcoreFeatureFlags::TRANS_MODE,
            SoundcoreFeatureFlags::CUSTOM_ANC,
            SoundcoreFeatureFlags::EQ,
            SoundcoreFeatureFlags::STEREO_EQ,
            SoundcoreFeatureFlags::DRC,
            SoundcoreFeatureFlags::HEARID,
            SoundcoreFeatureFlags::WEAR_DETECTION,
            SoundcoreFeatureFlags::CUSTOM_BUTTONS,
            SoundcoreFeatureFlags::TOUCH_TONE,
            SoundcoreFeatureFlags::GAME_MODE,
            SoundcoreFeatureFlags::AUTO_POWER_OFF_ON,
        ]);
    }
    v
}

} // verus!
