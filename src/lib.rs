//! A greeter program: one instruction that needs no accounts, writes a fixed
//! greeting to the program log and succeeds.
pub mod greeter;
pub mod program_log;

pub use greeter::{say_hello, SayHello, GREETING};
pub use program_log::ProgramLog;
