//! Verified core of a two-dimensional PIC/FLIP fluid simulation: the grids that carry data
//! around the simulation, the cell-state logic of the engine, the object pool and the sender
//! abstraction used to move simulation outputs between threads.

pub mod grid;
pub mod one_dimensional;
pub mod cell_state;
pub mod generic_sender;
pub mod bounded_channel;
pub mod pool;
pub mod adapters;
pub mod engine_config;
pub mod frontend_configuration;
pub mod engine_thread;
