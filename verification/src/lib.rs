use vstd::prelude::*;

pub mod api;
pub mod config;
pub mod device;
pub mod discovery;
pub mod json;
pub mod protocol;
pub mod squarelaunch;
pub mod simulator;
pub mod state;
pub mod text;

verus! {
} // verus!
