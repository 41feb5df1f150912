use vstd::prelude::*;

pub mod args;
pub mod container;
pub mod history;
pub mod mode;
pub mod record;
pub mod search;
pub mod session;
pub mod text;

verus! {

} // verus!
