use vstd::prelude::*;

pub mod controller;
pub mod n64;
pub mod power;
pub mod ps1;
pub mod ps2;
pub mod tv;

verus! {
} // verus!
