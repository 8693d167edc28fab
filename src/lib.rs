use vstd::prelude::*;

pub mod ast;
pub mod atom_name;
pub mod config;
pub mod diagnostics;
pub mod fixture;
pub mod ipc;
pub mod keyed;
pub mod meck;
pub mod pipeline;
pub mod preprocess;
pub mod stub;
pub mod table;
pub mod text;

verus! {

} // verus!
