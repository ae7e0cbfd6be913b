//! The bitwise-operation lookup bus: a channel of four fields `(x, y, z, op)`
//! for range checks and XOR facts.
use crate::openvm_stark_backend::field::FieldAlgebra;
use crate::openvm_stark_backend::interaction::{
    BusIndex, InteractionBuilder, InteractionView, LookupBus,
};
use vstd::prelude::*;

verus! {

#[derive(Clone)]
pub struct BitwiseOperationLookupBusInteraction<T> {
    pub x: T,
    pub y: T,
    pub z: T,
    pub op: T,
    pub bus: LookupBus,
    is_lookup: bool,
}

/// A bitwise-operation interaction as a value. `op` zero stands for a range
/// check of `x` and `y`, with `z` zero; `op` one stands for `z == x ^ y`.
pub struct BitwiseOperationView<T> {
    pub x: T,
    pub y: T,
    pub z: T,
    pub op: T,
    pub bus: LookupBus,
    /// Whether the interaction queries the table; otherwise it is a row of
    /// the table.
    pub is_lookup: bool,
}

impl<T> BitwiseOperationView<T> {
    /// The message that goes on the bus.
    pub open spec fn key(self) -> Seq<T> {
        seq![self.x, self.y, self.z, self.op]
    }
}

impl<T: FieldAlgebra> BitwiseOperationView<T> {
    /// What evaluation records for a row on which the interaction counts
    /// `count` times: a query with weight one, or a key of the table with the
    /// count negated and weight zero.
    pub open spec fn interaction(self, count: T) -> InteractionView<T> {
        if self.is_lookup {
            self.bus.query(self.key(), count)
        } else {
            self.bus.key_with_lookups(self.key(), count)
        }
    }
}

impl<T> View for BitwiseOperationLookupBusInteraction<T> {
    type V = BitwiseOperationView<T>;

    closed spec fn view(&self) -> BitwiseOperationView<T> {
        BitwiseOperationView {
            x: self.x,
            y: self.y,
            z: self.z,
            op: self.op,
            bus: self.bus,
            is_lookup: self.is_lookup,
        }
    }
}

impl<T: FieldAlgebra> BitwiseOperationLookupBusInteraction<T> {
    /// Puts the interaction on its bus, in the role it was made for. `count`
    /// is to be an expression with the values zero and one only.
    pub fn eval<AB>(self, builder: &mut AB, count: T) where AB: InteractionBuilder<Expr = T>
        ensures
            final(builder)@ == old(builder)@.with_interaction(self@.interaction(count)),
    {
        let key = vec![self.x, self.y, self.z, self.op];
        if self.is_lookup {
            self.bus.lookup_key(builder, key, count);
        } else {
            self.bus.add_key_with_lookups(builder, key, count);
        }
    }
}

#[derive(Clone)]
pub struct BitwiseOperationLookupBus {
    pub inner: LookupBus,
}

impl BitwiseOperationLookupBus {
    pub fn new(index: BusIndex) -> (bus: Self)
        ensures
            bus.inner.index == index,
    {
        Self { inner: LookupBus::new(index) }
    }

    /// A query that proves `x` and `y` to lie in the range of a limb.
    #[must_use]
    pub fn send_range<T>(&self, x: T, y: T) -> (r: BitwiseOperationLookupBusInteraction<T>) where
        T: FieldAlgebra,

        ensures
            r@ == (BitwiseOperationView { x, y, z: T::zero(), op: T::zero(), bus: self.inner, is_lookup: true }),
    {
        self.push(x, y, T::zero(), T::zero(), true)
    }

    /// A query that proves `z` to be the bitwise XOR of `x` and `y`.
    #[must_use]
    pub fn send_xor<T>(&self, x: T, y: T, z: T) -> (r: BitwiseOperationLookupBusInteraction<T>) where
        T: FieldAlgebra,

        ensures
            r@ == (BitwiseOperationView { x, y, z: z, op: T::one(), bus: self.inner, is_lookup: true }),
    {
        self.push(x, y, z, T::one(), true)
    }

    /// A row of the table, for the component that owns it.
    #[must_use]
    pub fn receive<T>(&self, x: T, y: T, z: T, op: T) -> (r: BitwiseOperationLookupBusInteraction<T>)
        ensures
            r@ == (BitwiseOperationView { x, y, z: z, op: op, bus: self.inner, is_lookup: false }),
    {
        self.push(x, y, z, op, false)
    }

    pub fn push<T>(&self, x: T, y: T, z: T, op: T, is_lookup: bool) -> (r:
        BitwiseOperationLookupBusInteraction<T>)
        ensures
            r@ == (BitwiseOperationView { x, y, z, op, bus: self.inner, is_lookup }),
    {
        BitwiseOperationLookupBusInteraction { x, y, z, op, bus: self.inner, is_lookup }
    }
}

} // verus!
