//! The feature flags a search can filter on, packed into a 64-bit mask.
//!
//! A [`SearchFeatures`] value is modelled by its mask: a `u64` in which only
//! the eight defined bits may be set. Decoding a raw integer drops every other
//! bit instead of failing, so a mask carrying flags this library does not know
//! still decodes.

use vstd::prelude::*;

verus! {

/// The bot has a custom prefix.
pub const PREFIX: u64 = 0b0000_0001;

/// The bot can be used in several languages.
pub const LANGUAGE: u64 = 0b0000_0010;

/// The bot lists its commands.
pub const COMMANDS: u64 = 0b0000_0100;

/// The bot has a dashboard.
pub const DASHBOARD: u64 = 0b0000_1000;

/// The bot offers slash commands.
pub const SLASH_COMMANDS: u64 = 0b0001_0000;

/// The bot has paid features.
pub const PAID_FEATURES: u64 = 0b0010_0000;

/// The bot has documentation.
pub const DOCUMENTATION: u64 = 0b0100_0000;

/// The bot uses interactive buttons.
pub const INTERACTIVE_BUTTONS: u64 = 0b1000_0000;

/// Mask of every bit that names a feature.
pub const KNOWN_FEATURE_BITS: u64 = 0xff;

/// Whether bit `index` (counted from the least significant) is set in `raw`.
pub open spec fn bit_is_set(raw: u64, index: u64) -> bool {
    (raw >> index) & 1 == 1
}

/// Whether bit `index` names a feature.
pub open spec fn bit_is_defined(index: u64) -> bool {
    index < 8
}

/// The mask that decoding `raw` keeps: `raw` without its undefined bits.
pub open spec fn truncated(raw: u64) -> u64 {
    raw & KNOWN_FEATURE_BITS
}

/// A set of bot features. Only the eight defined bits are ever set.
#[derive(Clone, Copy, Debug, PartialEq, Eq, Hash)]
pub struct SearchFeatures {
    bits: u64,
}

impl View for SearchFeatures {
    type V = u64;

    /// The mask of the set.
    closed spec fn view(&self) -> u64 {
        self.bits
    }
}

impl SearchFeatures {
    #[verifier::type_invariant]
    spec fn only_known_bits(self) -> bool {
        self.bits & !KNOWN_FEATURE_BITS == 0
    }

    /// Whether every feature of `other` is in `self`.
    pub open spec fn spec_contains(self, other: SearchFeatures) -> bool {
        self@ & other@ == other@
    }

    /// The set without any feature.
    pub fn empty() -> (r: SearchFeatures)
        ensures
            r@ == 0,
    {
        assert(0u64 & !0xffu64 == 0) by (bit_vector);
        SearchFeatures { bits: 0 }
    }

    /// The set of all eight features.
    pub fn all() -> (r: SearchFeatures)
        ensures
            r@ == KNOWN_FEATURE_BITS,
    {
        assert(0xffu64 & !0xffu64 == 0) by (bit_vector);
        SearchFeatures { bits: KNOWN_FEATURE_BITS }
    }

    /// Encodes the set as its raw mask. No undefined bit is set in it.
    pub fn bits(&self) -> (r: u64)
        ensures
            r == self@,
            r & !KNOWN_FEATURE_BITS == 0,
            r <= KNOWN_FEATURE_BITS,
    {
        proof {
            use_type_invariant(self);
            let b = self.bits;
            assert(b & !0xffu64 == 0 ==> b <= 0xffu64) by (bit_vector);
        }
        self.bits
    }

    /// Decodes a raw mask, dropping every bit that names no feature.
    pub fn from_bits_truncate(raw: u64) -> (r: SearchFeatures)
        ensures
            r@ == truncated(raw),
    {
        assert((raw & 0xffu64) & !0xffu64 == 0) by (bit_vector);
        SearchFeatures { bits: raw & KNOWN_FEATURE_BITS }
    }

    /// Decodes a raw mask, refusing one that has a bit set that names no
    /// feature.
    pub fn from_bits(raw: u64) -> (r: Option<SearchFeatures>)
        ensures
            r is Some <==> raw & !KNOWN_FEATURE_BITS == 0,
            r matches Some(f) ==> f@ == raw,
    {
        if raw & !KNOWN_FEATURE_BITS == 0 {
            Some(SearchFeatures { bits: raw })
        } else {
            None
        }
    }

    /// Whether no feature is in the set.
    pub fn is_empty(&self) -> (r: bool)
        ensures
            r == (self@ == 0),
    {
        self.bits == 0
    }

    /// Whether all eight features are in the set.
    pub fn is_all(&self) -> (r: bool)
        ensures
            r == (self@ == KNOWN_FEATURE_BITS),
    {
        self.bits == KNOWN_FEATURE_BITS
    }

    /// Whether every feature of `other` is in `self`.
    pub fn contains(&self, other: SearchFeatures) -> (r: bool)
        ensures
            r == self.spec_contains(other),
    {
        self.bits & other.bits == other.bits
    }

    /// Whether `self` and `other` share a feature.
    pub fn intersects(&self, other: SearchFeatures) -> (r: bool)
        ensures
            r == (self@ & other@ != 0),
    {
        self.bits & other.bits != 0
    }

    /// The features that are in `self`, in `other`, or in both.
    pub fn union(self, other: SearchFeatures) -> (r: SearchFeatures)
        ensures
            r@ == self@ | other@,
    {
        proof {
            use_type_invariant(self);
            use_type_invariant(other);
            let a = self.bits;
            let b = other.bits;
            assert(a & !0xffu64 == 0 && b & !0xffu64 == 0 ==> (a | b) & !0xffu64 == 0)
                by (bit_vector);
        }
        SearchFeatures { bits: self.bits | other.bits }
    }

    /// The features that are in both `self` and `other`.
    pub fn intersection(self, other: SearchFeatures) -> (r: SearchFeatures)
        ensures
            r@ == self@ & other@,
    {
        proof {
            use_type_invariant(self);
            let a = self.bits;
            let b = other.bits;
            assert(a & !0xffu64 == 0 ==> (a & b) & !0xffu64 == 0) by (bit_vector);
        }
        SearchFeatures { bits: self.bits & other.bits }
    }

    /// The features that are in `self` and not in `other`.
    pub fn difference(self, other: SearchFeatures) -> (r: SearchFeatures)
        ensures
            r@ == self@ & !other@,
    {
        proof {
            use_type_invariant(self);
            let a = self.bits;
            let b = other.bits;
            assert(a & !0xffu64 == 0 ==> (a & !b) & !0xffu64 == 0) by (bit_vector);
        }
        SearchFeatures { bits: self.bits & !other.bits }
    }

    /// Adds the features of `other` to the set.
    pub fn insert(&mut self, other: SearchFeatures)
        ensures
            final(self)@ == old(self)@ | other@,
    {
        *self = self.union(other);
    }

    /// Takes the features of `other` out of the set.
    pub fn remove(&mut self, other: SearchFeatures)
        ensures
            final(self)@ == old(self)@ & !other@,
    {
        *self = self.difference(other);
    }
}

impl Default for SearchFeatures {
    /// The default is the empty set.
    fn default() -> (r: SearchFeatures)
        ensures
            r@ == 0,
    {
        SearchFeatures::empty()
    }
}

/// Decoding a raw mask and encoding the result again clears exactly the bits
/// that name no feature: every defined bit comes back as it was in `raw`, and
/// every other bit comes back cleared.
pub proof fn lemma_truncate_clears_exactly_undefined_bits(raw: u64, index: u64)
    requires
        index < 64,
    ensures
        bit_is_defined(index) ==> bit_is_set(truncated(raw), index) == bit_is_set(raw, index),
        !bit_is_defined(index) ==> !bit_is_set(truncated(raw), index),
{
    assert(index < 8 ==> ((raw & 0xffu64) >> index) & 1 == (raw >> index) & 1) by (bit_vector);
    assert(8 <= index < 64 ==> ((raw & 0xffu64) >> index) & 1 == 0) by (bit_vector);
}

/// Truncating is idempotent, and it changes nothing in a mask that has no
/// undefined bit: encoding is the exact inverse of decoding on such masks.
pub proof fn lemma_truncate_is_identity_on_defined_bits(raw: u64)
    ensures
        truncated(truncated(raw)) == truncated(raw),
        raw & !KNOWN_FEATURE_BITS == 0 ==> truncated(raw) == raw,
        truncated(raw) & !KNOWN_FEATURE_BITS == 0,
{
    assert((raw & 0xffu64) & 0xffu64 == raw & 0xffu64) by (bit_vector);
    assert(raw & !0xffu64 == 0 ==> raw & 0xffu64 == raw) by (bit_vector);
    assert((raw & 0xffu64) & !0xffu64 == 0) by (bit_vector);
}

} // verus!
