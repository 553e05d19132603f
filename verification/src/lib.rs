use vstd::prelude::*;

pub mod abi;
pub mod constants;
pub mod contract;
pub mod errors;
pub mod laws;
pub mod math;
pub mod oracle;
pub mod price_table;
pub mod storage;
pub mod types;

verus! {

} // verus!
