//! A builder over the stand-in field that keeps what it is told, in order,
//! and enforces nothing.
use super::air::{AirBuilder, RowRecord};
use super::field::F;
use super::interaction::{BusIndex, Interaction, InteractionBuilder, InteractionView};
use core::ops::{Add, Mul, Sub};
use vstd::prelude::*;

verus! {

/// A trace cell of the recording builder. As an expression it reads as the
/// element it holds.
#[derive(Clone, Copy, Debug)]
pub struct Cell {
    pub value: F,
}

impl From<Cell> for F {
    fn from(cell: Cell) -> (r: F) {
        cell.value
    }
}

impl vstd::std_specs::convert::FromSpecImpl<Cell> for F {
    open spec fn obeys_from_spec() -> bool {
        true
    }

    open spec fn from_spec(cell: Cell) -> F {
        cell.value
    }
}

impl Add<F> for Cell {
    type Output = F;

    fn add(self, rhs: F) -> (r: F) {
        self.value + rhs
    }
}

impl vstd::std_specs::ops::AddSpecImpl<F> for Cell {
    open spec fn obeys_add_spec() -> bool {
        true
    }

    open spec fn add_req(self, rhs: F) -> bool {
        true
    }

    open spec fn add_spec(self, rhs: F) -> F {
        F::from_int(self.value@ + rhs@)
    }
}

impl Add<Cell> for Cell {
    type Output = F;

    fn add(self, rhs: Cell) -> (r: F) {
        self.value + rhs.value
    }
}

impl vstd::std_specs::ops::AddSpecImpl<Cell> for Cell {
    open spec fn obeys_add_spec() -> bool {
        true
    }

    open spec fn add_req(self, rhs: Cell) -> bool {
        true
    }

    open spec fn add_spec(self, rhs: Cell) -> F {
        F::from_int(self.value@ + rhs.value@)
    }
}

impl Add<Cell> for F {
    type Output = F;

    fn add(self, rhs: Cell) -> (r: F) {
        self + rhs.value
    }
}

impl vstd::std_specs::ops::AddSpecImpl<Cell> for F {
    open spec fn obeys_add_spec() -> bool {
        true
    }

    open spec fn add_req(self, rhs: Cell) -> bool {
        true
    }

    open spec fn add_spec(self, rhs: Cell) -> F {
        F::from_int(self@ + rhs.value@)
    }
}

impl Sub<F> for Cell {
    type Output = F;

    fn sub(self, rhs: F) -> (r: F) {
        self.value - rhs
    }
}

impl vstd::std_specs::ops::SubSpecImpl<F> for Cell {
    open spec fn obeys_sub_spec() -> bool {
        true
    }

    open spec fn sub_req(self, rhs: F) -> bool {
        true
    }

    open spec fn sub_spec(self, rhs: F) -> F {
        F::from_int(self.value@ - rhs@)
    }
}

impl Sub<Cell> for Cell {
    type Output = F;

    fn sub(self, rhs: Cell) -> (r: F) {
        self.value - rhs.value
    }
}

impl vstd::std_specs::ops::SubSpecImpl<Cell> for Cell {
    open spec fn obeys_sub_spec() -> bool {
        true
    }

    open spec fn sub_req(self, rhs: Cell) -> bool {
        true
    }

    open spec fn sub_spec(self, rhs: Cell) -> F {
        F::from_int(self.value@ - rhs.value@)
    }
}

impl Sub<Cell> for F {
    type Output = F;

    fn sub(self, rhs: Cell) -> (r: F) {
        self - rhs.value
    }
}

impl vstd::std_specs::ops::SubSpecImpl<Cell> for F {
    open spec fn obeys_sub_spec() -> bool {
        true
    }

    open spec fn sub_req(self, rhs: Cell) -> bool {
        true
    }

    open spec fn sub_spec(self, rhs: Cell) -> F {
        F::from_int(self@ - rhs.value@)
    }
}

impl Mul<F> for Cell {
    type Output = F;

    fn mul(self, rhs: F) -> (r: F) {
        self.value * rhs
    }
}

impl vstd::std_specs::ops::MulSpecImpl<F> for Cell {
    open spec fn obeys_mul_spec() -> bool {
        true
    }

    open spec fn mul_req(self, rhs: F) -> bool {
        true
    }

    open spec fn mul_spec(self, rhs: F) -> F {
        F::from_int(self.value@ * rhs@)
    }
}

impl Mul<Cell> for Cell {
    type Output = F;

    fn mul(self, rhs: Cell) -> (r: F) {
        self.value * rhs.value
    }
}

impl vstd::std_specs::ops::MulSpecImpl<Cell> for Cell {
    open spec fn obeys_mul_spec() -> bool {
        true
    }

    open spec fn mul_req(self, rhs: Cell) -> bool {
        true
    }

    open spec fn mul_spec(self, rhs: Cell) -> F {
        F::from_int(self.value@ * rhs.value@)
    }
}

impl Mul<Cell> for F {
    type Output = F;

    fn mul(self, rhs: Cell) -> (r: F) {
        self * rhs.value
    }
}

impl vstd::std_specs::ops::MulSpecImpl<Cell> for F {
    open spec fn obeys_mul_spec() -> bool {
        true
    }

    open spec fn mul_req(self, rhs: Cell) -> bool {
        true
    }

    open spec fn mul_spec(self, rhs: Cell) -> F {
        F::from_int(self@ * rhs.value@)
    }
}

/// A builder whose expressions are elements of the stand-in field.
pub struct RecordingBuilder {
    constraints: Vec<F>,
    interactions: Vec<Interaction<F>>,
}

impl RecordingBuilder {
    /// A builder that has recorded nothing.
    pub fn new() -> (builder: Self)
        ensures
            builder@.constraints == Seq::<F>::empty(),
            builder@.interactions == Seq::<InteractionView<F>>::empty(),
    {
        RecordingBuilder { constraints: Vec::new(), interactions: Vec::new() }
    }

    /// The constraints recorded so far, in the order of the calls.
    pub fn constraints(&self) -> (constraints: &Vec<F>)
        ensures
            constraints@ == self@.constraints,
    {
        &self.constraints
    }

    /// The interactions recorded so far, in the order of the calls.
    pub fn interactions(&self) -> (interactions: &Vec<Interaction<F>>)
        ensures
            interactions@.map_values(|i: Interaction<F>| i@) == self@.interactions,
    {
        &self.interactions
    }
}

impl AirBuilder for RecordingBuilder {
    type F = F;

    type Expr = F;

    type Var = Cell;

    closed spec fn view(&self) -> RowRecord<F> {
        RowRecord {
            constraints: self.constraints@,
            interactions: self.interactions@.map_values(|i: Interaction<F>| i@),
        }
    }

    open spec fn var_expr(v: Cell) -> F {
        v.value
    }

    proof fn lemma_var_into_expr(v: Cell, e: F) {
    }

    fn assert_zero(&mut self, x: F) {
        self.constraints.push(x);
    }
}

impl InteractionBuilder for RecordingBuilder {
    fn push_interaction(&mut self, bus_index: BusIndex, fields: Vec<F>, count: F, count_weight: u32) {
        let interaction = Interaction { message: fields, count, bus_index, count_weight };
        assert(self.interactions@.push(interaction).map_values(|i: Interaction<F>| i@)
            =~= self.interactions@.map_values(|i: Interaction<F>| i@).push(interaction@));
        self.interactions.push(interaction);
    }
}

} // verus!
