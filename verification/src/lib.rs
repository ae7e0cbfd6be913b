pub mod auipc;
pub mod bus;
pub mod openvm_stark_backend;
