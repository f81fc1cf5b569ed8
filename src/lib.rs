//! Control-flow evaluation for a tree-walking interpreter: conditionals,
//! `while` and `for` loops, the break / continue / return signal protocol,
//! the syntactic lint that rejects loops which can never stop, and
//! references to labelled elements.
use vstd::prelude::*;

pub mod diag;
pub mod flow;
pub mod for_loop;
pub mod pattern;
pub mod reference;
pub mod syntax;
pub mod value;
pub mod while_loop;
