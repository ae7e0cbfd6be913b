//! The algebra that constraints are written in: a ring of expressions, the
//! field of scalars inside it, and a stand-in scalar type over `i32`.
use core::fmt::Debug;
use core::iter::{Product, Sum};
use core::ops::{Add, AddAssign, Mul, MulAssign, Neg, Sub, SubAssign};
use vstd::prelude::*;
use vstd::std_specs::iter::IteratorSpec;
use vstd::std_specs::ops::{AddSpec, MulSpec, NegSpec, SubSpec};
use vstd::wrapping::i32_specs;

verus! {

/// A ring of expressions, closed under `+`, `-`, `*` and unary `-`.
///
/// The operators are total: none of them has a precondition, and each
/// returns what its `*_spec` function names. Nothing is asked of how two
/// expressions compare; a symbolic implementation may keep `a + b` and
/// `b + a` apart. The ring laws are asked of [`Field`] only.
pub trait FieldAlgebra: Sized + Default + Clone + Add<Output = Self> + Sub<Output = Self> + Neg<
    Output = Self,
> + Mul<Output = Self> + Debug {
    /// The field of scalars that this algebra is built over.
    type F;

    /// The additive identity.
    spec fn spec_zero() -> Self;

    /// The multiplicative identity.
    spec fn spec_one() -> Self;

    #[verifier::when_used_as_spec(spec_zero)]
    fn zero() -> (r: Self)
        ensures
            r == Self::spec_zero(),
    ;

    #[verifier::when_used_as_spec(spec_one)]
    fn one() -> (r: Self)
        ensures
            r == Self::spec_one(),
    ;

    /// Every operator is defined on every operand and returns its `*_spec` value.
    proof fn lemma_operators_total()
        ensures
            Self::obeys_add_spec(),
            Self::obeys_sub_spec(),
            Self::obeys_mul_spec(),
            Self::obeys_neg_spec(),
            forall|a: Self, b: Self| #[trigger] a.add_req(b),
            forall|a: Self, b: Self| #[trigger] a.sub_req(b),
            forall|a: Self, b: Self| #[trigger] a.mul_req(b),
            forall|a: Self| #[trigger] a.neg_req(),
    ;

    /// A clone is equal to what it was cloned from.
    proof fn lemma_clone_is_equal(a: Self, b: Self)
        requires
            cloned(a, b),
        ensures
            a == b,
    ;
}

/// A scalar type: an algebra over itself in which the laws of a commutative
/// ring hold for `==`, and in which the polynomial `x * (x - 1)` has no root
/// but zero and one.
pub trait Field: FieldAlgebra<F = Self> {
    proof fn lemma_add_commutative(a: Self, b: Self)
        ensures
            a.add_spec(b) == b.add_spec(a),
    ;

    proof fn lemma_add_associative(a: Self, b: Self, c: Self)
        ensures
            a.add_spec(b).add_spec(c) == a.add_spec(b.add_spec(c)),
    ;

    proof fn lemma_add_zero(a: Self)
        ensures
            a.add_spec(Self::zero()) == a,
    ;

    proof fn lemma_add_neg(a: Self)
        ensures
            a.add_spec(a.neg_spec()) == Self::zero(),
    ;

    proof fn lemma_sub_is_add_neg(a: Self, b: Self)
        ensures
            a.sub_spec(b) == a.add_spec(b.neg_spec()),
    ;

    proof fn lemma_mul_commutative(a: Self, b: Self)
        ensures
            a.mul_spec(b) == b.mul_spec(a),
    ;

    proof fn lemma_mul_associative(a: Self, b: Self, c: Self)
        ensures
            a.mul_spec(b).mul_spec(c) == a.mul_spec(b.mul_spec(c)),
    ;

    proof fn lemma_mul_one(a: Self)
        ensures
            a.mul_spec(Self::one()) == a,
    ;

    proof fn lemma_mul_distributes(a: Self, b: Self, c: Self)
        ensures
            a.mul_spec(b.add_spec(c)) == a.mul_spec(b).add_spec(a.mul_spec(c)),
    ;

    proof fn lemma_boolean_roots(x: Self)
        requires
            x.mul_spec(x.sub_spec(Self::one())) == Self::zero(),
        ensures
            x == Self::zero() || x == Self::one(),
    ;
}

/// In a field, `a - a` is zero.
pub proof fn lemma_sub_self<T: Field>(a: T)
    ensures
        a.sub_spec(a) == T::zero(),
{
    T::lemma_sub_is_add_neg(a, a);
    T::lemma_add_neg(a);
}

/// In a field, `a - b` is zero exactly when `a` and `b` are equal.
pub proof fn lemma_sub_zero_iff_equal<T: Field>(a: T, b: T)
    ensures
        a.sub_spec(b) == T::zero() <==> a == b,
{
    lemma_sub_self(a);
    if a.sub_spec(b) == T::zero() {
        let nb = b.neg_spec();
        // b == 0 + b == (a + -b) + b == a + (-b + b) == a + 0 == a
        T::lemma_sub_is_add_neg(a, b);
        T::lemma_add_commutative(T::zero(), b);
        T::lemma_add_zero(b);
        T::lemma_add_associative(a, nb, b);
        T::lemma_add_commutative(nb, b);
        T::lemma_add_neg(b);
        T::lemma_add_zero(a);
    }
}

/// In a field, a product with zero is zero, on either side.
pub proof fn lemma_mul_zero<T: Field>(a: T)
    ensures
        a.mul_spec(T::zero()) == T::zero(),
        T::zero().mul_spec(a) == T::zero(),
{
    let z = T::zero();
    let p = a.mul_spec(z);
    // p + p == a * (0 + 0) == p, and then p == (p + p) + -p == p + -p == 0
    T::lemma_add_zero(z);
    T::lemma_mul_distributes(a, z, z);
    T::lemma_add_associative(p, p, p.neg_spec());
    T::lemma_add_neg(p);
    T::lemma_add_zero(p);
    T::lemma_mul_commutative(a, z);
}

/// A stand-in scalar that holds one `i32` and computes modulo 2^32, in two's
/// complement. It is a commutative ring, and enough of a field for the
/// constraint helpers; it is here to drive evaluators, not to carry a proof
/// system.
#[derive(Clone, Debug, Copy)]
pub struct F {
    value: i32,
}

impl View for F {
    type V = int;

    /// The integer that the element holds, within the range of `i32`.
    closed spec fn view(&self) -> int {
        self.value as int
    }
}

impl F {
    /// The element that an integer reduces to.
    pub closed spec fn from_int(v: int) -> F {
        F { value: #[verifier::truncate] (v as i32) }
    }

    /// Reduction leaves the integers of `i32` as they are, and every element
    /// holds an integer of `i32` and is the reduction of it: no two elements
    /// hold the same integer.
    pub proof fn lemma_from_int_view()
        ensures
            forall|v: int| i32::MIN <= v <= i32::MAX ==> (#[trigger] F::from_int(v))@ == v,
            forall|a: F| i32::MIN <= #[trigger] a@ <= i32::MAX && F::from_int(a@) == a,
    {
    }

    pub fn new(value: i32) -> (r: Self)
        ensures
            r == F::from_int(value as int),
            r@ == value,
    {
        F { value }
    }

    pub fn zero() -> (r: Self)
        ensures
            r == F::from_int(0),
            r@ == 0,
    {
        F { value: 0 }
    }

    pub fn from_i32(value: i32) -> (r: Self)
        ensures
            r == F::from_int(value as int),
            r@ == value,
    {
        F { value }
    }
}

impl Default for F {
    fn default() -> (r: Self)
        ensures
            r == F::from_int(0),
            r@ == 0,
    {
        F { value: 0 }
    }
}

proof fn lemma_wrapping_add(x: i32, y: i32)
    ensures
        i32_specs::wrapping_add(x, y) == #[verifier::truncate] ((x + y) as i32),
{
    assert((if x + y > 0x7fff_ffff {
        (x + y - 0x1_0000_0000) as i32
    } else if x + y < -0x8000_0000 {
        (x + y + 0x1_0000_0000) as i32
    } else {
        (x + y) as i32
    }) == (x + y) as i32) by (bit_vector);
}

proof fn lemma_wrapping_sub(x: i32, y: i32)
    ensures
        i32_specs::wrapping_sub(x, y) == #[verifier::truncate] ((x - y) as i32),
{
    assert((if x - y > 0x7fff_ffff {
        (x - y - 0x1_0000_0000) as i32
    } else if x - y < -0x8000_0000 {
        (x - y + 0x1_0000_0000) as i32
    } else {
        (x - y) as i32
    }) == (x - y) as i32) by (bit_vector);
}

proof fn lemma_wrapping_mul(x: i32, y: i32)
    ensures
        i32_specs::wrapping_mul(x, y) == #[verifier::truncate] ((x * y) as i32),
{
    let z = x * y;
    assert(-0x8000_0000_0000_0000 <= z <= 0x8000_0000_0000_0000) by (nonlinear_arith)
        requires
            z == x * y,
            -0x8000_0000 <= x <= 0x7fff_ffff,
            -0x8000_0000 <= y <= 0x7fff_ffff,
    ;
    let w: i128 = z as i128;
    assert((if (w % 0x1_0000_0000) > 0x7fff_ffff {
        ((w % 0x1_0000_0000) - 0x1_0000_0000) as i32
    } else {
        (w % 0x1_0000_0000) as i32
    }) == w as i32) by (bit_vector);
}

impl Add for F {
    type Output = F;

    fn add(self, rhs: F) -> (r: F) {
        proof {
            lemma_wrapping_add(self.value, rhs.value);
        }
        F { value: self.value.wrapping_add(rhs.value) }
    }
}

impl vstd::std_specs::ops::AddSpecImpl for F {
    open spec fn obeys_add_spec() -> bool {
        true
    }

    open spec fn add_req(self, rhs: F) -> bool {
        true
    }

    open spec fn add_spec(self, rhs: F) -> F {
        F::from_int(self@ + rhs@)
    }
}

impl AddAssign for F {
    fn add_assign(&mut self, rhs: F)
        ensures
            *final(self) == old(self).add_spec(rhs),
    {
        proof {
            lemma_wrapping_add(self.value, rhs.value);
        }
        self.value = self.value.wrapping_add(rhs.value);
    }
}

impl Sub for F {
    type Output = F;

    fn sub(self, rhs: F) -> (r: F) {
        proof {
            lemma_wrapping_sub(self.value, rhs.value);
        }
        F { value: self.value.wrapping_sub(rhs.value) }
    }
}

impl vstd::std_specs::ops::SubSpecImpl for F {
    open spec fn obeys_sub_spec() -> bool {
        true
    }

    open spec fn sub_req(self, rhs: F) -> bool {
        true
    }

    open spec fn sub_spec(self, rhs: F) -> F {
        F::from_int(self@ - rhs@)
    }
}

impl SubAssign for F {
    fn sub_assign(&mut self, rhs: F)
        ensures
            *final(self) == old(self).sub_spec(rhs),
    {
        proof {
            lemma_wrapping_sub(self.value, rhs.value);
        }
        self.value = self.value.wrapping_sub(rhs.value);
    }
}

impl Mul for F {
    type Output = F;

    fn mul(self, rhs: F) -> (r: F) {
        proof {
            lemma_wrapping_mul(self.value, rhs.value);
        }
        F { value: self.value.wrapping_mul(rhs.value) }
    }
}

impl vstd::std_specs::ops::MulSpecImpl for F {
    open spec fn obeys_mul_spec() -> bool {
        true
    }

    open spec fn mul_req(self, rhs: F) -> bool {
        true
    }

    open spec fn mul_spec(self, rhs: F) -> F {
        F::from_int(self@ * rhs@)
    }
}

impl MulAssign for F {
    fn mul_assign(&mut self, rhs: F)
        ensures
            *final(self) == old(self).mul_spec(rhs),
    {
        proof {
            lemma_wrapping_mul(self.value, rhs.value);
        }
        self.value = self.value.wrapping_mul(rhs.value);
    }
}

impl Neg for F {
    type Output = F;

    fn neg(self) -> (r: F) {
        proof {
            lemma_wrapping_sub(0, self.value);
        }
        F { value: 0i32.wrapping_sub(self.value) }
    }
}

impl vstd::std_specs::ops::NegSpecImpl for F {
    open spec fn obeys_neg_spec() -> bool {
        true
    }

    open spec fn neg_req(self) -> bool {
        true
    }

    open spec fn neg_spec(self) -> F {
        F::from_int(-self@)
    }
}

impl F {
    /// What a sum, or a product, of items has come to after one more item.
    pub open spec fn accumulated(acc: F, x: F, product: bool) -> F {
        if product {
            F::from_int(acc@ * x@)
        } else {
            F::from_int(acc@ + x@)
        }
    }

    /// The items of a sequence added up, or multiplied, from `init` on and
    /// from the first item to the last.
    pub open spec fn folded(items: Seq<F>, init: F, product: bool) -> F {
        items.fold_left(init, |acc: F, x: F| F::accumulated(acc, x, product))
    }

    fn accumulate(acc: F, x: F, product: bool) -> (r: F)
        ensures
            r == F::accumulated(acc, x, product),
    {
        if product {
            acc * x
        } else {
            acc + x
        }
    }

    /// Folds the items of an iterator into `init`, from the first to the
    /// last. The iterator must yield the items it announces and come to an
    /// end.
    fn fold<I: Iterator<Item = F>>(iter: I, init: F, product: bool) -> (r: F)
        requires
            iter.obeys_prophetic_iter_laws(),
            iter.decrease() is Some,
        ensures
            r == F::folded(iter.remaining(), init, product),
    {
        let ghost step = |acc: F, x: F| F::accumulated(acc, x, product);
        let ghost folded = F::folded(iter.remaining(), init, product);
        proof {
            iter.remaining().lemma_fold_left_alt(init, step);
        }
        let mut it = iter;
        let mut acc = init;
        loop
            invariant_except_break
                it.obeys_prophetic_iter_laws(),
                it.decrease() is Some,
                step == |acc: F, x: F| F::accumulated(acc, x, product),
                folded == it.remaining().fold_left_alt(acc, step),
            ensures
                folded == acc,
            decreases it.decrease()->0,
        {
            let ghost rest = it.remaining();
            match it.next() {
                Some(x) => {
                    assert(it.remaining() == rest.subrange(1, rest.len() as int));
                    acc = F::accumulate(acc, x, product);
                },
                None => {
                    break ;
                },
            }
        }
        acc
    }
}

impl Sum for F {
    fn sum<I: Iterator<Item = F>>(iter: I) -> (r: F)
        requires
            iter.obeys_prophetic_iter_laws(),
            iter.decrease() is Some,
        ensures
            r == F::folded(iter.remaining(), F::from_int(0), false),
    {
        F::fold(iter, F { value: 0 }, false)
    }
}

impl Product for F {
    fn product<I: Iterator<Item = F>>(iter: I) -> (r: F)
        requires
            iter.obeys_prophetic_iter_laws(),
            iter.decrease() is Some,
        ensures
            r == F::folded(iter.remaining(), F::from_int(1), true),
    {
        F::fold(iter, F { value: 1 }, true)
    }
}

impl FieldAlgebra for F {
    type F = F;

    open spec fn spec_zero() -> Self {
        F::from_int(0)
    }

    open spec fn spec_one() -> Self {
        F::from_int(1)
    }

    fn zero() -> (r: Self) {
        F { value: 0 }
    }

    fn one() -> (r: Self) {
        F { value: 1 }
    }

    proof fn lemma_operators_total() {
    }

    proof fn lemma_clone_is_equal(a: Self, b: Self) {
    }
}

impl Field for F {
    proof fn lemma_add_commutative(a: Self, b: Self) {
    }

    proof fn lemma_add_associative(a: Self, b: Self, c: Self) {
        let (x, y, z) = (a.value, b.value, c.value);
        assert((((x + y) as i32) + z) as i32 == (x + ((y + z) as i32)) as i32) by (bit_vector);
    }

    proof fn lemma_add_zero(a: Self) {
    }

    proof fn lemma_add_neg(a: Self) {
        let x = a.value;
        assert((x + ((-x) as i32)) as i32 == 0i32) by (bit_vector);
    }

    proof fn lemma_sub_is_add_neg(a: Self, b: Self) {
        let (x, y) = (a.value, b.value);
        assert((x - y) as i32 == (x + ((-y) as i32)) as i32) by (bit_vector);
    }

    proof fn lemma_mul_commutative(a: Self, b: Self) {
        let (x, y) = (a.value, b.value);
        assert(x * y == y * x) by (nonlinear_arith);
    }

    proof fn lemma_mul_associative(a: Self, b: Self, c: Self) {
        let (x, y, z) = (a.value, b.value, c.value);
        assert((((x * y) as i32) * z) as i32 == (x * ((y * z) as i32)) as i32) by (bit_vector);
    }

    proof fn lemma_mul_one(a: Self) {
        let x = a.value;
        assert(x * 1 == x);
    }

    proof fn lemma_mul_distributes(a: Self, b: Self, c: Self) {
        let (x, y, z) = (a.value, b.value, c.value);
        assert((x * ((y + z) as i32)) as i32 == (((x * y) as i32) + ((x * z) as i32)) as i32)
            by (bit_vector);
    }

    proof fn lemma_boolean_roots(x: Self) {
        let v = x.value;
        assert((v * ((v - 1) as i32)) as i32 == 0i32 ==> (v == 0 || v == 1)) by (bit_vector);
    }
}

} // verus!
