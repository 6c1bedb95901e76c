//! Totally ordered binary32 floats, held as their bit patterns.
use vstd::prelude::*;

verus! {

/// The sign bit of a binary32 pattern.
pub const SIGN_MASK: u32 = 0x8000_0000;

/// Every bit of a binary32 pattern but the sign.
pub const MAGNITUDE_MASK: u32 = 0x7fff_ffff;

/// The pattern of `+inf`: the largest magnitude that is not a NaN.
pub const INFINITY_BITS: u32 = 0x7f80_0000;

/// The quiet NaN with sign and payload clear; every NaN hashes as this pattern.
pub const CANONICAL_NAN_BITS: u32 = 0x7fc0_0000;

/// The pattern without its sign bit.
pub open spec fn magnitude(b: u32) -> u32 {
    b & MAGNITUDE_MASK
}

/// Whether the sign bit is set.
pub open spec fn sign_set(b: u32) -> bool {
    b & SIGN_MASK != 0
}

/// A NaN: all exponent bits set and a fraction that is not zero.
pub open spec fn is_nan_bits(b: u32) -> bool {
    magnitude(b) > INFINITY_BITS
}

/// `+0.0` or `-0.0`.
pub open spec fn is_zero_bits(b: u32) -> bool {
    magnitude(b) == 0
}

/// Where a non-NaN value stands on the number line. Binary32 patterns of one
/// sign grow with the value they encode, so the magnitude, negated for a set
/// sign bit, orders non-NaN values as the reals do (both zeros at 0).
pub open spec fn real_key(b: u32) -> int {
    if sign_set(b) {
        -(magnitude(b) as int)
    } else {
        magnitude(b) as int
    }
}

/// IEEE-754 `a == b`: false whenever either side is a NaN.
pub open spec fn ieee_eq(a: u32, b: u32) -> bool {
    !is_nan_bits(a) && !is_nan_bits(b) && real_key(a) == real_key(b)
}

/// IEEE-754 `a >= b`: false whenever either side is a NaN.
pub open spec fn ieee_ge(a: u32, b: u32) -> bool {
    !is_nan_bits(a) && !is_nan_bits(b) && real_key(a) >= real_key(b)
}

/// The position of a value in the total order: its place on the number line,
/// and one above `+inf` for every NaN.
pub open spec fn rank(b: u32) -> int {
    if is_nan_bits(b) {
        INFINITY_BITS as int + 1
    } else {
        real_key(b)
    }
}

/// The pattern that is hashed for a value: the canonical NaN for every NaN,
/// `+0.0` for both zeros, and the value's own pattern otherwise.
pub open spec fn hash_key(b: u32) -> u32 {
    if is_nan_bits(b) {
        CANONICAL_NAN_BITS
    } else if is_zero_bits(b) {
        0
    } else {
        b
    }
}

/// Equality of the total order: every NaN equals every NaN, and other values
/// compare as IEEE-754 `==` does.
pub open spec fn total_eq(a: u32, b: u32) -> bool {
    if is_nan_bits(a) {
        is_nan_bits(b)
    } else {
        ieee_eq(a, b)
    }
}

/// `>=` of the total order: a NaN is at least anything, other values compare
/// as IEEE-754 `>=` does.
pub open spec fn total_ge(a: u32, b: u32) -> bool {
    is_nan_bits(a) || ieee_ge(a, b)
}

/// Three-way comparison, derived from `>=` alone.
pub open spec fn total_cmp(a: u32, b: u32) -> core::cmp::Ordering {
    if !total_ge(a, b) {
        core::cmp::Ordering::Less
    } else if !total_ge(b, a) {
        core::cmp::Ordering::Greater
    } else {
        core::cmp::Ordering::Equal
    }
}

/// A binary32 float with a total order, held as its IEEE-754 bit pattern.
#[derive(Clone, Copy, Debug)]
pub struct OrderedFloat(pub u32);

/// IEEE-754 equality of two patterns.
fn float_eq(a: u32, b: u32) -> (r: bool)
    ensures
        r == ieee_eq(a, b),
{
    let ma = a & MAGNITUDE_MASK;
    let mb = b & MAGNITUDE_MASK;
    if ma > INFINITY_BITS || mb > INFINITY_BITS {
        false
    } else if ma == 0 && mb == 0 {
        true
    } else {
        proof {
            lemma_same_key_same_bits(a, b);
        }
        a == b
    }
}

/// IEEE-754 `a >= b` on two patterns.
fn float_ge(a: u32, b: u32) -> (r: bool)
    ensures
        r == ieee_ge(a, b),
{
    let ma = a & MAGNITUDE_MASK;
    let mb = b & MAGNITUDE_MASK;
    let sa = a & SIGN_MASK != 0;
    let sb = b & SIGN_MASK != 0;
    if ma > INFINITY_BITS || mb > INFINITY_BITS {
        false
    } else if !sa && !sb {
        ma >= mb
    } else if !sa {
        true
    } else if !sb {
        ma == 0 && mb == 0
    } else {
        ma <= mb
    }
}

/// Turns `-0.0` into `+0.0` and leaves every other non-NaN pattern as it is,
/// as adding `+0.0` under round-to-nearest-even does.
fn canonicalize_signed_zero(b: u32) -> (r: u32)
    ensures
        r == (if is_zero_bits(b) { 0 } else { b }),
{
    if b & MAGNITUDE_MASK == 0 {
        0
    } else {
        b
    }
}

impl OrderedFloat {
    /// Whether the value is a NaN, of either sign and any payload.
    pub fn is_nan(&self) -> (r: bool)
        ensures
            r == is_nan_bits(self.0),
    {
        self.0 & MAGNITUDE_MASK > INFINITY_BITS
    }

    /// The pattern that stands for the value in a hash: equal values give
    /// equal patterns.
    pub fn hash_bits(&self) -> (r: u32)
        ensures
            r == hash_key(self.0),
    {
        if self.is_nan() {
            CANONICAL_NAN_BITS
        } else {
            canonicalize_signed_zero(self.0)
        }
    }

    /// Three-way comparison in the total order, consistent with `<`, `>` and
    /// `==` by construction.
    pub fn cmp(&self, other: &Self) -> (r: core::cmp::Ordering)
        ensures
            r == total_cmp(self.0, other.0),
            r == core::cmp::Ordering::Less <==> rank(self.0) < rank(other.0),
            r == core::cmp::Ordering::Equal <==> rank(self.0) == rank(other.0),
            r == core::cmp::Ordering::Greater <==> rank(self.0) > rank(other.0),
    {
        proof {
            lemma_order_follows_rank(*self, *other);
            lemma_order_follows_rank(*other, *self);
        }
        if self.lt(other) {
            core::cmp::Ordering::Less
        } else if self.gt(other) {
            core::cmp::Ordering::Greater
        } else {
            core::cmp::Ordering::Equal
        }
    }
}

impl PartialEq for OrderedFloat {
    fn eq(&self, other: &Self) -> (r: bool) {
        if self.is_nan() {
            other.is_nan()
        } else {
            float_eq(self.0, other.0)
        }
    }
}

impl vstd::std_specs::cmp::PartialEqSpecImpl for OrderedFloat {
    open spec fn obeys_eq_spec() -> bool {
        true
    }

    open spec fn eq_spec(&self, other: &Self) -> bool {
        total_eq(self.0, other.0)
    }
}

impl Eq for OrderedFloat {}

impl PartialOrd for OrderedFloat {
    fn partial_cmp(&self, other: &Self) -> (r: Option<core::cmp::Ordering>) {
        Some(self.cmp(other))
    }

    fn lt(&self, other: &Self) -> (r: bool) {
        !self.ge(other)
    }

    fn le(&self, other: &Self) -> (r: bool) {
        other.ge(self)
    }

    fn gt(&self, other: &Self) -> (r: bool) {
        !other.ge(self)
    }

    /// Every NaN is at least anything; otherwise IEEE-754 `>=` decides.
    fn ge(&self, other: &Self) -> (r: bool) {
        self.is_nan() || float_ge(self.0, other.0)
    }
}

impl vstd::std_specs::cmp::PartialOrdSpecImpl for OrderedFloat {
    open spec fn obeys_partial_cmp_spec() -> bool {
        true
    }

    open spec fn partial_cmp_spec(&self, other: &Self) -> Option<core::cmp::Ordering> {
        Some(total_cmp(self.0, other.0))
    }
}

impl core::hash::Hash for OrderedFloat {
    /// Feeds `hash_bits` to the hasher, so that equal values hash alike.
    fn hash<H: core::hash::Hasher>(&self, state: &mut H) {
        feed_u32(self.hash_bits(), state);
    }
}

/// Relies on `<u32 as Hash>::hash`: writes the integer into the hasher.
#[verifier::external_body]
fn feed_u32<H: core::hash::Hasher>(k: u32, state: &mut H) {
    core::hash::Hash::hash(&k, state)
}

/// The order agrees with ranks: two values are equal exactly when their
/// ranks are, one is at least another exactly when its rank is, and the
/// three-way comparison is the comparison of the ranks.
pub proof fn lemma_order_follows_rank(a: OrderedFloat, b: OrderedFloat)
    ensures
        total_eq(a.0, b.0) <==> rank(a.0) == rank(b.0),
        total_ge(a.0, b.0) <==> rank(a.0) >= rank(b.0),
        total_cmp(a.0, b.0) == core::cmp::Ordering::Less <==> rank(a.0) < rank(b.0),
        total_cmp(a.0, b.0) == core::cmp::Ordering::Equal <==> rank(a.0) == rank(b.0),
        total_cmp(a.0, b.0) == core::cmp::Ordering::Greater <==> rank(a.0) > rank(b.0),
{
    if !is_nan_bits(a.0) && !is_nan_bits(b.0) && !(is_zero_bits(a.0) && is_zero_bits(b.0)) {
        lemma_same_key_same_bits(a.0, b.0);
    }
}

/// The order is total: reflexive, antisymmetric with respect to its equality,
/// transitive, and defined on every pair; equality is an equivalence.
pub proof fn lemma_total_order(a: OrderedFloat, b: OrderedFloat, c: OrderedFloat)
    ensures
        total_ge(a.0, a.0),
        total_ge(a.0, b.0) || total_ge(b.0, a.0),
        total_ge(a.0, b.0) && total_ge(b.0, a.0) <==> total_eq(a.0, b.0),
        total_ge(a.0, b.0) && total_ge(b.0, c.0) ==> total_ge(a.0, c.0),
        total_eq(a.0, a.0),
        total_eq(a.0, b.0) ==> total_eq(b.0, a.0),
        total_eq(a.0, b.0) && total_eq(b.0, c.0) ==> total_eq(a.0, c.0),
{
    lemma_order_follows_rank(a, a);
    lemma_order_follows_rank(a, b);
    lemma_order_follows_rank(b, a);
    lemma_order_follows_rank(b, c);
    lemma_order_follows_rank(a, c);
}

/// A NaN, whatever its sign and payload, equals itself, is at most and at
/// least itself, and compares `Equal` with itself.
pub proof fn lemma_nan_reflexive(n: OrderedFloat)
    requires
        is_nan_bits(n.0),
    ensures
        total_eq(n.0, n.0),
        total_ge(n.0, n.0),
        total_cmp(n.0, n.0) == core::cmp::Ordering::Equal,
{
}

/// A NaN is above every value that is not a NaN, infinities included.
pub proof fn lemma_nan_is_top(n: OrderedFloat, x: OrderedFloat)
    requires
        is_nan_bits(n.0),
        !is_nan_bits(x.0),
    ensures
        total_ge(n.0, x.0),
        !total_ge(x.0, n.0),
        !total_eq(n.0, x.0),
        total_cmp(n.0, x.0) == core::cmp::Ordering::Greater,
        total_cmp(x.0, n.0) == core::cmp::Ordering::Less,
{
}

/// All NaNs hash alike, whatever their sign and payload.
pub proof fn lemma_nan_hash_canonical(a: OrderedFloat, b: OrderedFloat)
    requires
        is_nan_bits(a.0),
        is_nan_bits(b.0),
    ensures
        hash_key(a.0) == hash_key(b.0),
{
}

/// Equal values hash alike.
pub proof fn lemma_equal_values_hash_alike(a: OrderedFloat, b: OrderedFloat)
    requires
        total_eq(a.0, b.0),
    ensures
        hash_key(a.0) == hash_key(b.0),
{
    lemma_hash_key_separates(a, b);
}

/// The hashed pattern tells values apart exactly as equality does: values
/// that are not equal are hashed from different patterns.
pub proof fn lemma_hash_key_separates(a: OrderedFloat, b: OrderedFloat)
    ensures
        hash_key(a.0) == hash_key(b.0) <==> total_eq(a.0, b.0),
{
    lemma_order_follows_rank(a, b);
    assert(is_nan_bits(CANONICAL_NAN_BITS)) by (bit_vector);
    assert(!is_nan_bits(0) && is_zero_bits(0)) by (bit_vector);
    if !is_nan_bits(a.0) && !is_nan_bits(b.0) && !(is_zero_bits(a.0) && is_zero_bits(b.0)) {
        lemma_same_key_same_bits(a.0, b.0);
    }
}

/// Apart from the two zeros, distinct patterns stand at distinct places.
proof fn lemma_same_key_same_bits(a: u32, b: u32)
    requires
        !(is_zero_bits(a) && is_zero_bits(b)),
    ensures
        real_key(a) == real_key(b) <==> a == b,
{
    if real_key(a) == real_key(b) {
        assert(sign_set(a) == sign_set(b) && magnitude(a) == magnitude(b));
        assert(a == b) by (bit_vector)
            requires
                (a & 0x8000_0000 != 0) == (b & 0x8000_0000 != 0),
                a & 0x7fff_ffff == b & 0x7fff_ffff,
        ;
    }
}

} // verus!
