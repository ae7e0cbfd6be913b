//! The constraint builder: what an evaluator records for one row.
use super::field::{lemma_mul_zero, lemma_sub_self, lemma_sub_zero_iff_equal, Field, FieldAlgebra};
use super::interaction::InteractionView;
use core::ops::{Add, Mul, Sub};
use vstd::prelude::*;
use vstd::std_specs::ops::{MulSpec, SubSpec};

verus! {

/// What a builder has recorded for the row under evaluation: the expressions
/// that must vanish, and the bus interactions, each in the order of the calls.
pub struct RowRecord<E> {
    pub constraints: Seq<E>,
    pub interactions: Seq<InteractionView<E>>,
}

impl<E> RowRecord<E> {
    /// The record with one more constraint at the end.
    pub open spec fn with_constraint(self, e: E) -> Self {
        RowRecord { constraints: self.constraints.push(e), interactions: self.interactions }
    }

    /// The record with one more interaction at the end.
    pub open spec fn with_interaction(self, i: InteractionView<E>) -> Self {
        RowRecord { constraints: self.constraints, interactions: self.interactions.push(i) }
    }
}

/// The expression `x - 1`, which vanishes where `x` is one.
pub open spec fn one_constraint<E: FieldAlgebra>(x: E) -> E {
    x.sub_spec(E::one())
}

/// The expression `x - y`, which vanishes where `x` and `y` agree.
pub open spec fn eq_constraint<E: FieldAlgebra>(x: E, y: E) -> E {
    x.sub_spec(y)
}

/// The expression `x * (x - 1)`, which vanishes where `x` is zero or one.
pub open spec fn bool_constraint<E: FieldAlgebra>(x: E) -> E {
    x.mul_spec(x.sub_spec(E::one()))
}

/// A constraint whose value on a row is `value` holds on that row.
pub open spec fn satisfied<T: Field>(value: T) -> bool {
    value == T::zero()
}

/// The constraint of `assert_one` holds exactly where the value is one.
pub proof fn lemma_one_constraint_satisfied<T: Field>(v: T)
    ensures
        satisfied(one_constraint(v)) <==> v == T::one(),
{
    lemma_sub_zero_iff_equal(v, T::one());
}

/// The constraint of `assert_eq` holds exactly where the two values are
/// equal; for a value and itself it always holds.
pub proof fn lemma_eq_constraint_satisfied<T: Field>(a: T, b: T)
    ensures
        satisfied(eq_constraint(a, b)) <==> a == b,
        satisfied(eq_constraint(a, a)),
{
    lemma_sub_zero_iff_equal(a, b);
    lemma_sub_self(a);
}

/// The constraint of `assert_bool` holds exactly where the value is zero or
/// one.
pub proof fn lemma_bool_constraint_satisfied<T: Field>(v: T)
    ensures
        satisfied(bool_constraint(v)) <==> (v == T::zero() || v == T::one()),
{
    if v == T::zero() {
        lemma_mul_zero(v.sub_spec(T::one()));
    }
    if v == T::one() {
        lemma_sub_self(v);
        lemma_mul_zero(v);
    }
    if satisfied(bool_constraint(v)) {
        T::lemma_boolean_roots(v);
    }
}

pub trait AirBuilder {
    type F: Field;

    type Expr: FieldAlgebra + From<Self::F> + Add<Self::Var, Output = Self::Expr> + Add<
        Self::F,
        Output = Self::Expr,
    > + Sub<Self::Var, Output = Self::Expr> + Sub<Self::F, Output = Self::Expr> + Mul<
        Self::Var,
        Output = Self::Expr,
    > + Mul<Self::F, Output = Self::Expr>;

    type Var: Into<Self::Expr> + Copy + Send + Sync + Add<Self::F, Output = Self::Expr> + Add<
        Self::Var,
        Output = Self::Expr,
    > + Add<Self::Expr, Output = Self::Expr> + Sub<Self::F, Output = Self::Expr> + Sub<
        Self::Var,
        Output = Self::Expr,
    > + Sub<Self::Expr, Output = Self::Expr> + Mul<Self::F, Output = Self::Expr> + Mul<
        Self::Var,
        Output = Self::Expr,
    > + Mul<Self::Expr, Output = Self::Expr>;

    /// What has been recorded so far.
    spec fn view(&self) -> RowRecord<Self::Expr>;

    /// The expression that reads a trace cell.
    spec fn var_expr(v: Self::Var) -> Self::Expr;

    /// Converting a trace cell with `into` gives the expression that reads it.
    /// An implementation proves this from the contract of its conversion, so
    /// `Var` must be a type with a conversion whose contract Verus knows, as
    /// one written with its `from_spec` is; the conversion of a type into
    /// itself is not among them.
    proof fn lemma_var_into_expr(v: Self::Var, e: Self::Expr)
        requires
            call_ensures(<Self::Var as Into<Self::Expr>>::into, (v,), e),
        ensures
            e == Self::var_expr(v),
    ;

    /// Records that `x` must evaluate to zero on every row.
    fn assert_zero(&mut self, x: Self::Expr)
        ensures
            final(self)@ == old(self)@.with_constraint(x),
    ;

    /// Records that `x` must evaluate to one.
    fn assert_one(&mut self, x: Self::Expr)
        ensures
            final(self)@ == old(self)@.with_constraint(one_constraint(x)),
    {
        proof {
            Self::Expr::lemma_operators_total();
        }
        self.assert_zero(x - Self::Expr::one());
    }

    /// Records that `x` and `y` must evaluate to the same value.
    fn assert_eq(&mut self, x: Self::Expr, y: Self::Expr)
        ensures
            final(self)@ == old(self)@.with_constraint(eq_constraint(x, y)),
    {
        proof {
            Self::Expr::lemma_operators_total();
        }
        self.assert_zero(x - y);
    }

    /// Records that `x` must evaluate to zero or to one.
    fn assert_bool(&mut self, x: Self::Expr)
        ensures
            final(self)@ == old(self)@.with_constraint(bool_constraint(x)),
    {
        let x1 = x.clone();
        proof {
            Self::Expr::lemma_operators_total();
            Self::Expr::lemma_clone_is_equal(x, x1);
        }
        self.assert_zero(x1 * (x - Self::Expr::one()));
    }
}

} // verus!
