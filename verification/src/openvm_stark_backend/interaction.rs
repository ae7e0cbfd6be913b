//! Bus interactions: signed, weighted messages that rows of different traces
//! put on a shared bus, and the lookup bus built from them.
use super::air::AirBuilder;
use super::field::{lemma_sub_zero_iff_equal, Field, FieldAlgebra};
use core::ops::Neg;
use vstd::prelude::*;
use vstd::std_specs::ops::{AddSpec, NegSpec, SubSpec};

verus! {

pub type BusIndex = usize;

#[derive(Clone, PartialEq, Eq)]
pub struct Interaction<Expr> {
    pub message: Vec<Expr>,
    pub count: Expr,
    /// The bus that the message is sent over. Every index names a bus.
    pub bus_index: BusIndex,
    /// What one row of this interaction adds to the bus's bound on trace
    /// heights: the weights of the interactions on a bus, each times the
    /// height of its trace, must add up to less than the characteristic of
    /// the field.
    pub count_weight: u32,
}

/// An interaction as a value: the message as a sequence.
pub struct InteractionView<E> {
    pub message: Seq<E>,
    pub count: E,
    pub bus_index: BusIndex,
    pub count_weight: u32,
}

impl<Expr> View for Interaction<Expr> {
    type V = InteractionView<Expr>;

    open spec fn view(&self) -> InteractionView<Expr> {
        InteractionView {
            message: self.message@,
            count: self.count,
            bus_index: self.bus_index,
            count_weight: self.count_weight,
        }
    }
}

pub trait InteractionBuilder: AirBuilder {
    /// Stores a new interaction in the builder.
    fn push_interaction(
        &mut self,
        bus_index: BusIndex,
        fields: Vec<Self::Expr>,
        count: Self::Expr,
        count_weight: u32,
    )
        ensures
            final(self)@ == old(self)@.with_interaction(
                (InteractionView { message: fields@, count, bus_index, count_weight }),
            ),
    ;
}

#[derive(Copy, Clone, PartialEq, Eq)]
pub struct LookupBus {
    pub index: BusIndex,
}

impl LookupBus {
    pub fn new(index: BusIndex) -> (bus: Self)
        ensures
            bus.index == index,
    {
        Self { index }
    }

    /// What a query for `query`, enabled by `enabled`, puts on this bus.
    pub open spec fn query<E>(self, query: Seq<E>, enabled: E) -> InteractionView<E> {
        InteractionView { message: query, count: enabled, bus_index: self.index, count_weight: 1 }
    }

    /// What the table puts on this bus for a key that is looked up
    /// `num_lookups` times.
    pub open spec fn key_with_lookups<E: FieldAlgebra>(
        self,
        key: Seq<E>,
        num_lookups: E,
    ) -> InteractionView<E> {
        InteractionView {
            message: key,
            count: num_lookups.neg_spec(),
            bus_index: self.index,
            count_weight: 0,
        }
    }

    /// Performs a lookup on the bus: `query` must be a key of the table
    /// wherever `enabled` is one. The caller constrains `enabled` to be
    /// boolean.
    pub fn lookup_key<AB>(&self, builder: &mut AB, query: Vec<AB::Expr>, enabled: AB::Expr) where
        AB: InteractionBuilder,

        ensures
            final(builder)@ == old(builder)@.with_interaction(self.query(query@, enabled)),
    {
        builder.push_interaction(self.index, query, enabled, 1);
    }

    /// Adds a key to the lookup table. `num_lookups` is to equal the number
    /// of enabled lookups of the key over the whole trace.
    pub fn add_key_with_lookups<AB>(
        &self,
        builder: &mut AB,
        key: Vec<AB::Expr>,
        num_lookups: AB::Expr,
    ) where AB: InteractionBuilder
        ensures
            final(builder)@ == old(builder)@.with_interaction(
                self.key_with_lookups(key@, num_lookups),
            ),
    {
        proof {
            AB::Expr::lemma_operators_total();
        }
        builder.push_interaction(self.index, key, num_lookups.neg(), 0);
    }
}

/// The sum of the counts of the interactions that carry `message` on the bus
/// `bus_index`. The lookup argument on that bus balances for `message` where
/// this sum, taken over all rows, is zero.
pub open spec fn signed_count<T: FieldAlgebra>(
    interactions: Seq<InteractionView<T>>,
    bus_index: BusIndex,
    message: Seq<T>,
) -> T
    decreases interactions.len(),
{
    if interactions.len() == 0 {
        T::zero()
    } else {
        let rest = signed_count(interactions.drop_last(), bus_index, message);
        let last = interactions.last();
        if last.bus_index == bus_index && last.message == message {
            rest.add_spec(last.count)
        } else {
            rest
        }
    }
}

/// The number `n` as an element of the algebra: `n` times one.
pub open spec fn from_count<T: FieldAlgebra>(n: nat) -> T
    decreases n,
{
    if n == 0 {
        T::zero()
    } else {
        from_count::<T>((n - 1) as nat).add_spec(T::one())
    }
}

/// The counts of two runs of interactions add up.
pub proof fn lemma_signed_count_of_runs<T: Field>(
    first: Seq<InteractionView<T>>,
    second: Seq<InteractionView<T>>,
    bus_index: BusIndex,
    message: Seq<T>,
)
    ensures
        signed_count(first + second, bus_index, message) == signed_count(
            first,
            bus_index,
            message,
        ).add_spec(signed_count(second, bus_index, message)),
    decreases second.len(),
{
    let a = signed_count(first, bus_index, message);
    if second.len() == 0 {
        assert(first + second =~= first);
        T::lemma_add_zero(a);
    } else {
        assert((first + second).drop_last() =~= first + second.drop_last());
        lemma_signed_count_of_runs(first, second.drop_last(), bus_index, message);
        T::lemma_add_associative(
            a,
            signed_count(second.drop_last(), bus_index, message),
            second.last().count,
        );
    }
}

/// `n` enabled queries for one key count `n` times one.
pub proof fn lemma_signed_count_of_queries<T: Field>(bus: LookupBus, key: Seq<T>, n: nat)
    ensures
        signed_count(Seq::new(n, |i: int| bus.query(key, T::one())), bus.index, key)
            == from_count::<T>(n),
    decreases n,
{
    if n > 0 {
        let queries = Seq::new(n, |i: int| bus.query(key, T::one()));
        assert(queries.drop_last() =~= Seq::new((n - 1) as nat, |i: int| bus.query(key, T::one())));
        lemma_signed_count_of_queries(bus, key, (n - 1) as nat);
    }
}

/// Counting is additive: `m` times one and `n` times one are `m + n` times one.
pub proof fn lemma_from_count_add<T: Field>(m: nat, n: nat)
    ensures
        from_count::<T>(m).add_spec(from_count::<T>(n)) == from_count::<T>(m + n),
    decreases n,
{
    if n == 0 {
        T::lemma_add_zero(from_count::<T>(m));
    } else {
        lemma_from_count_add::<T>(m, (n - 1) as nat);
        T::lemma_add_associative(from_count::<T>(m), from_count::<T>((n - 1) as nat), T::one());
    }
}

/// After `n` enabled queries for a key and one entry of the table for it with
/// `num_lookups`, recorded in whatever order, the counts for the key add up
/// to zero exactly when `num_lookups` is `n`.
pub proof fn lemma_lookups_balance<T: Field>(
    bus: LookupBus,
    key: Seq<T>,
    n: nat,
    at: int,
    num_lookups: T,
)
    requires
        0 <= at <= n,
    ensures
        signed_count(
            Seq::new(n, |i: int| bus.query(key, T::one())).insert(
                at,
                bus.key_with_lookups(key, num_lookups),
            ),
            bus.index,
            key,
        ) == T::zero() <==> num_lookups == from_count::<T>(n),
{
    let queries = Seq::new(n, |i: int| bus.query(key, T::one()));
    let entry = bus.key_with_lookups(key, num_lookups);
    let before = Seq::new(at as nat, |i: int| bus.query(key, T::one()));
    let after = Seq::new((n - at) as nat, |i: int| bus.query(key, T::one()));
    let b = from_count::<T>(at as nat);
    let a = from_count::<T>((n - at) as nat);
    let m = num_lookups.neg_spec();
    assert(queries.insert(at, entry) =~= before.push(entry) + after);
    assert(before.push(entry).drop_last() =~= before);
    lemma_signed_count_of_queries(bus, key, at as nat);
    lemma_signed_count_of_queries(bus, key, (n - at) as nat);
    lemma_signed_count_of_runs(before.push(entry), after, bus.index, key);
    // (b + m) + a == b + (m + a) == b + (a + m) == (b + a) + m == n - num_lookups
    T::lemma_add_associative(b, m, a);
    T::lemma_add_commutative(m, a);
    T::lemma_add_associative(b, a, m);
    lemma_from_count_add::<T>(at as nat, (n - at) as nat);
    T::lemma_sub_is_add_neg(from_count::<T>(n), num_lookups);
    lemma_sub_zero_iff_equal(from_count::<T>(n), num_lookups);
}

} // verus!
