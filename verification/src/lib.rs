//! A stack machine for a small, dynamically typed language, with its
//! bytecode.
//!
//! [`bytecode`] holds the program representation with its reader and
//! writer, [`stack`] the bounded evaluation stack, [`gc`] the heap and its
//! collector, [`value`] the values, and [`vm`] the machine itself, with the
//! meaning of every instruction and the laws that follow from it.
//!
//! The library carries numbers as bit patterns and does no floating-point
//! arithmetic and no output of its own. Both are left to a host, which
//! [`host`] describes: the machine stops where it needs one of them, says
//! what it needs, and goes on when it is called again.

pub mod bytecode;
pub mod fault;
pub mod gc;
pub mod host;
pub mod stack;
pub mod value;
pub mod vm;
