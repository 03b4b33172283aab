use vstd::prelude::*;

pub mod connection;
pub mod dispatch;
pub mod laws;
pub mod parser;
pub mod store;

verus! {

} // verus!
