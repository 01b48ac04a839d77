//! Command-line flag and option lookup over an explicit argument list.
//!
//! The first argument is taken to be the program's own path and is never
//! matched. A flag is a switch whose presence alone matters; an option is a
//! switch whose value is the argument right after it.

pub mod tokens;
pub mod flag;
pub mod option;
pub mod name;
pub mod laws;

pub use option::arg_val;
