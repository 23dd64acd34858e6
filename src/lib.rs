//! A typed form field shown both as a terminal widget and as a command-line
//! flag, with one validation path shared by the two surfaces.
pub mod checkbox;
pub mod cli;
pub mod errors;
pub mod field;
pub mod laws;
pub mod value;

use vstd::prelude::*;

verus! {

} // verus!
