//! The core of the RV32 "add upper immediate to pc" instruction: the
//! constraints and bus interactions of one row.
use crate::bus::BitwiseOperationLookupBus;
use crate::openvm_stark_backend::air::{bool_constraint, AirBuilder, RowRecord};
use crate::openvm_stark_backend::field::FieldAlgebra;
use crate::openvm_stark_backend::interaction::{InteractionBuilder, InteractionView};
use vstd::prelude::*;

verus! {

pub const RV32_REGISTER_NUM_LIMBS: usize = 4;

/// The limbs that a row keeps of the immediate, and of the pc.
pub const RV32_AUIPC_NUM_LIMBS: usize = RV32_REGISTER_NUM_LIMBS - 1;

/// The number of cells in a row of the core.
pub const RV32_AUIPC_CORE_WIDTH: usize = 1 + 2 * RV32_AUIPC_NUM_LIMBS + RV32_REGISTER_NUM_LIMBS;

#[derive(Clone)]
pub struct Rv32AuipcCoreCols<T> {
    pub is_valid: T,
    /// The limbs of the immediate except the least significant limb, which is always 0.
    pub imm_limbs: [T; RV32_AUIPC_NUM_LIMBS],
    /// The limbs of the pc except the most significant and the least significant limbs.
    pub pc_limbs: [T; RV32_AUIPC_NUM_LIMBS],
    pub rd_data: [T; RV32_REGISTER_NUM_LIMBS],
}

/// The columns of a row as a value.
pub struct Rv32AuipcCoreColsView<T> {
    pub is_valid: T,
    pub imm_limbs: Seq<T>,
    pub pc_limbs: Seq<T>,
    pub rd_data: Seq<T>,
}

impl<T> View for Rv32AuipcCoreCols<T> {
    type V = Rv32AuipcCoreColsView<T>;

    open spec fn view(&self) -> Rv32AuipcCoreColsView<T> {
        Rv32AuipcCoreColsView {
            is_valid: self.is_valid,
            imm_limbs: self.imm_limbs@,
            pc_limbs: self.pc_limbs@,
            rd_data: self.rd_data@,
        }
    }
}

impl<T> Rv32AuipcCoreColsView<T> {
    /// The columns that the cells of a row stand for, in the order of the
    /// fields: the flag, then the limbs of the immediate, of the pc and of
    /// the destination register.
    pub open spec fn of_row(row: Seq<T>) -> Self {
        Rv32AuipcCoreColsView {
            is_valid: row[0],
            imm_limbs: row.subrange(1, 4),
            pc_limbs: row.subrange(4, 7),
            rd_data: row.subrange(7, 11),
        }
    }

    /// The limbs that are range checked, two by two from the front.
    pub open spec fn limbs(self) -> Seq<T> {
        self.imm_limbs + self.pc_limbs
    }
}

pub trait VmCoreAir<AB> where AB: InteractionBuilder {
    /// Whether a row has the cells that this core reads.
    spec fn reads(&self, local_core: Seq<AB::Var>) -> bool;

    /// The record after this core has been evaluated on a row.
    spec fn evaluated(
        &self,
        record: RowRecord<AB::Expr>,
        local_core: Seq<AB::Var>,
        from_pc: AB::Var,
    ) -> RowRecord<AB::Expr>;

    fn eval(&self, builder: &mut AB, local_core: &[AB::Var], from_pc: AB::Var)
        requires
            self.reads(local_core@),
        ensures
            final(builder)@ == self.evaluated(old(builder)@, local_core@, from_pc),
    ;
}

#[derive(Clone)]
pub struct Rv32AuipcCoreAir {
    pub bus: BitwiseOperationLookupBus,
}

/// Reads the columns of a row off its cells. The row must be as wide as the
/// columns are; cells behind them are not read.
pub fn trusted_borrow<T: Copy>(x: &[T]) -> (cols: Rv32AuipcCoreCols<T>)
    requires
        x@.len() >= RV32_AUIPC_CORE_WIDTH,
    ensures
        cols@ == Rv32AuipcCoreColsView::of_row(x@),
{
    let cols = Rv32AuipcCoreCols {
        is_valid: x[0],
        imm_limbs: [x[1], x[2], x[3]],
        pc_limbs: [x[4], x[5], x[6]],
        rd_data: [x[7], x[8], x[9], x[10]],
    };
    assert(cols.imm_limbs@ =~= x@.subrange(1, 4));
    assert(cols.pc_limbs@ =~= x@.subrange(4, 7));
    assert(cols.rd_data@ =~= x@.subrange(7, 11));
    cols
}

impl Rv32AuipcCoreAir {
    /// The query that range checks the limbs `x` and `y` where `is_valid` is one.
    pub open spec fn range_check<E: FieldAlgebra>(&self, x: E, y: E, is_valid: E) -> InteractionView<
        E,
    > {
        self.bus.inner.query(seq![x, y, E::zero(), E::zero()], is_valid)
    }

    /// The record after the row with columns `cols` has been evaluated: the
    /// flag is constrained to be boolean, and the first two pairs of limbs
    /// are range checked where the flag is one. The last pair of limbs and
    /// the destination register are left alone.
    pub open spec fn evaluated_columns<AB: InteractionBuilder>(
        &self,
        record: RowRecord<AB::Expr>,
        cols: Rv32AuipcCoreColsView<AB::Var>,
    ) -> RowRecord<AB::Expr> {
        let is_valid = AB::var_expr(cols.is_valid);
        let limbs = cols.limbs();
        record.with_constraint(bool_constraint(is_valid)).with_interaction(
            self.range_check(AB::var_expr(limbs[0]), AB::var_expr(limbs[1]), is_valid),
        ).with_interaction(
            self.range_check(AB::var_expr(limbs[2]), AB::var_expr(limbs[3]), is_valid),
        )
    }
}

/// The cell as an expression.
fn var_into_expr<AB: AirBuilder>(v: AB::Var) -> (e: AB::Expr)
    ensures
        e == AB::var_expr(v),
{
    let e: AB::Expr = v.into();
    proof {
        AB::lemma_var_into_expr(v, e);
    }
    e
}

impl<AB> VmCoreAir<AB> for Rv32AuipcCoreAir where AB: InteractionBuilder {
    open spec fn reads(&self, local_core: Seq<AB::Var>) -> bool {
        local_core.len() >= RV32_AUIPC_CORE_WIDTH
    }

    open spec fn evaluated(
        &self,
        record: RowRecord<AB::Expr>,
        local_core: Seq<AB::Var>,
        from_pc: AB::Var,
    ) -> RowRecord<AB::Expr> {
        self.evaluated_columns::<AB>(record, Rv32AuipcCoreColsView::of_row(local_core))
    }

    fn eval(&self, builder: &mut AB, local_core: &[AB::Var], from_pc: AB::Var) {
        let cols = trusted_borrow(local_core);
        let Rv32AuipcCoreCols { is_valid, imm_limbs, pc_limbs, rd_data } = cols;
        builder.assert_bool(var_into_expr::<AB>(is_valid));
        let mut limbs: Vec<AB::Var> = Vec::new();
        limbs.push(imm_limbs[0]);
        limbs.push(imm_limbs[1]);
        limbs.push(imm_limbs[2]);
        limbs.push(pc_limbs[0]);
        limbs.push(pc_limbs[1]);
        limbs.push(pc_limbs[2]);
        assert(limbs@ =~= cols@.limbs());
        let ghost checked = old(builder)@.with_constraint(bool_constraint(AB::var_expr(is_valid)));
        let mut i: usize = 0;
        while i < RV32_REGISTER_NUM_LIMBS - 2
            invariant
                i <= 2,
                limbs@.len() == 6,
                builder@ == if i == 0 {
                    checked
                } else if i == 1 {
                    checked.with_interaction(
                        self.range_check(
                            AB::var_expr(limbs@[0]),
                            AB::var_expr(limbs@[1]),
                            AB::var_expr(is_valid),
                        ),
                    )
                } else {
                    checked.with_interaction(
                        self.range_check(
                            AB::var_expr(limbs@[0]),
                            AB::var_expr(limbs@[1]),
                            AB::var_expr(is_valid),
                        ),
                    ).with_interaction(
                        self.range_check(
                            AB::var_expr(limbs@[2]),
                            AB::var_expr(limbs@[3]),
                            AB::var_expr(is_valid),
                        ),
                    )
                },
            decreases 2 - i,
        {
            self.bus.send_range(
                var_into_expr::<AB>(limbs[i * 2]),
                var_into_expr::<AB>(limbs[i * 2 + 1]),
            ).eval(builder, var_into_expr::<AB>(is_valid));
            i += 1;
        }
    }
}

} // verus!
