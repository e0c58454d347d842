//! Driver for the program-memory (flash) controller of an STM32L4 part, over a
//! register-level model of the peripheral, together with the random number
//! generator peripheral.
pub mod byte_order;
pub mod extra_traits;
pub mod flash;
pub mod registers;
pub mod rng;
