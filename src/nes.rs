pub mod alu;
pub mod bus;
pub mod cart;
pub mod cpu;
pub mod decode;
pub mod laws;
pub mod mem;
pub mod ops;
pub mod queue;
pub mod screen;
pub mod state;
