use zkvm_air::auipc::{Rv32AuipcCoreAir, VmCoreAir};
use zkvm_air::bus::BitwiseOperationLookupBus;
use zkvm_air::openvm_stark_backend::air::AirBuilder;
use zkvm_air::openvm_stark_backend::field::F;
use zkvm_air::openvm_stark_backend::interaction::{InteractionBuilder, LookupBus};
use zkvm_air::openvm_stark_backend::recorder::{Cell, RecordingBuilder};

fn f(v: i32) -> F {
    F::from_i32(v)
}

fn cell(v: i32) -> Cell {
    Cell { value: f(v) }
}

fn show(x: F) -> String {
    format!("{:?}", x)
}

fn is(x: F, v: i32) -> bool {
    show(x) == show(f(v))
}

fn values(xs: &[F]) -> Vec<String> {
    xs.iter().map(|x| show(*x)).collect()
}

fn elements(vs: &[i32]) -> Vec<String> {
    vs.iter().map(|v| show(f(*v))).collect()
}

fn cells(vs: &[i32]) -> Vec<Cell> {
    vs.iter().map(|v| cell(*v)).collect()
}

#[test]
fn a_new_recording_builder_holds_nothing() {
    let builder = RecordingBuilder::new();
    assert_eq!(builder.constraints().len(), 0);
    assert_eq!(builder.interactions().len(), 0);
}

#[test]
fn the_recording_builder_keeps_the_order_of_the_calls() {
    let mut builder = RecordingBuilder::new();
    builder.assert_zero(f(3));
    builder.push_interaction(7, vec![f(1), f(2)], f(5), 9);
    builder.assert_one(f(3));
    builder.push_interaction(8, vec![], f(-5), 0);
    builder.assert_eq(f(3), f(1));
    builder.assert_bool(f(3));
    assert_eq!(values(builder.constraints()), elements(&[3, 2, 2, 6]));
    let interactions = builder.interactions();
    assert_eq!(interactions.len(), 2);
    assert_eq!(interactions[0].bus_index, 7);
    assert_eq!(values(&interactions[0].message), elements(&[1, 2]));
    assert!(is(interactions[0].count, 5));
    assert_eq!(interactions[0].count_weight, 9);
    assert_eq!(interactions[1].bus_index, 8);
    assert_eq!(interactions[1].message.len(), 0);
    assert!(is(interactions[1].count, -5));
    assert_eq!(interactions[1].count_weight, 0);
}

#[test]
fn a_cell_converts_into_the_element_it_holds() {
    let e: F = cell(42).into();
    assert!(is(e, 42));
    assert!(is(F::from(cell(-1)), -1));
}

#[test]
fn cells_and_elements_combine_to_elements() {
    assert!(is(cell(7) + f(3), 10));
    assert!(is(cell(7) + cell(3), 10));
    assert!(is(f(7) + cell(3), 10));
    assert!(is(cell(7) - f(3), 4));
    assert!(is(cell(7) - cell(3), 4));
    assert!(is(f(7) - cell(3), 4));
    assert!(is(cell(7) * f(3), 21));
    assert!(is(cell(7) * cell(3), 21));
    assert!(is(f(7) * cell(3), 21));
    assert!(is(cell(i32::MAX) + cell(1), i32::MIN));
    assert!(is(f(i32::MIN) - cell(1), i32::MAX));
    assert!(is(cell(65536) * f(65536), 0));
}

#[test]
fn the_recording_builder_records_an_invalid_row_with_count_zero() {
    let mut builder = RecordingBuilder::new();
    Rv32AuipcCoreAir { bus: BitwiseOperationLookupBus::new(3) }.eval(
        &mut builder,
        &cells(&[0, 1, 2, 3, 5, 6, 7, 9, 9, 9, 9]),
        cell(14),
    );
    let interactions = builder.interactions();
    assert_eq!(interactions.len(), 2);
    for interaction in interactions.iter() {
        assert!(is(interaction.count, 0));
        assert_eq!(interaction.count_weight, 1);
        assert_eq!(interaction.bus_index, 3);
    }
    assert_eq!(values(builder.constraints()), elements(&[0]));
}

#[test]
fn the_recording_builder_records_a_valid_row() {
    let mut builder = RecordingBuilder::new();
    Rv32AuipcCoreAir { bus: BitwiseOperationLookupBus::new(0) }.eval(
        &mut builder,
        &cells(&[1, 1, 2, 3, 5, 6, 7, 0, 0, 0, 0]),
        cell(14),
    );
    let interactions = builder.interactions();
    assert_eq!(interactions.len(), 2);
    assert_eq!(values(&interactions[0].message), elements(&[1, 2, 0, 0]));
    assert_eq!(values(&interactions[1].message), elements(&[3, 5, 0, 0]));
    for interaction in interactions.iter() {
        assert!(is(interaction.count, 1));
        assert_eq!(interaction.count_weight, 1);
        assert_eq!(interaction.bus_index, 0);
    }
    assert_eq!(values(builder.constraints()), elements(&[0]));
}

#[test]
fn the_recording_builder_takes_lookups_and_keys() {
    let bus = LookupBus::new(2);
    let mut builder = RecordingBuilder::new();
    bus.lookup_key(&mut builder, vec![f(4), f(5)], f(1));
    bus.add_key_with_lookups(&mut builder, vec![f(4), f(5)], f(1));
    BitwiseOperationLookupBus::new(6).send_xor(f(5), f(3), f(6)).eval(&mut builder, f(1));
    BitwiseOperationLookupBus::new(6).receive(f(5), f(3), f(6), f(1)).eval(&mut builder, f(2));
    let interactions = builder.interactions();
    assert_eq!(interactions.len(), 4);
    assert_eq!(interactions[0].count_weight, 1);
    assert!(is(interactions[0].count, 1));
    assert_eq!(interactions[1].count_weight, 0);
    assert!(is(interactions[1].count, -1));
    assert_eq!(values(&interactions[2].message), elements(&[5, 3, 6, 1]));
    assert_eq!(interactions[2].count_weight, 1);
    assert_eq!(interactions[3].count_weight, 0);
    assert!(is(interactions[3].count, -2));
    assert_eq!(interactions[3].bus_index, 6);
    assert_eq!(builder.constraints().len(), 0);
}
