use vstd::prelude::*;

pub mod json;
pub mod tags;
pub mod parameters;
pub mod decode;
pub mod walk;
pub mod edge;
pub mod tables;
pub mod nodes;
pub mod parameter_map;
pub mod model;
pub mod network;
pub mod encode;
pub mod node_encode;
pub mod network_encode;

pub use model::{PywrModel, PywrNetwork};

verus! {

broadcast use {vstd::std_specs::vec::group_vec_axioms, vstd::seq::group_seq_axioms};

} // verus!
