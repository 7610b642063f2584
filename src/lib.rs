use vstd::prelude::*;

pub mod canonical;
pub mod crypto;
pub mod error;
pub mod issuance;
pub mod keymap;
pub mod model;
pub mod registry;
pub mod service;
pub mod time;
pub mod tree;
pub mod url;
pub mod vault;
pub mod verification;

verus! {

} // verus!
