//! A CHIP-8 virtual machine core: keypad, screen and a fetch-decode-execute
//! interpreter whose behaviour is stated in contracts and proved by Verus.

pub mod execute;
pub mod fault;
pub mod font;
pub mod instruction;
pub mod interpreter;
pub mod keypad;
pub mod laws;
pub mod machine;
pub mod rng;
pub mod screen;
pub mod sprite;
