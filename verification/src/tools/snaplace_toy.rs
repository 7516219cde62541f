//! The Functions of an orchestrator of toys.

use vstd::prelude::*;
use vstd::string::*;

use crate::runtime::registration::{mebibytes, MEBIBYTE};
use crate::runtime::toy::toy_rt::ToyFunctionInfo;
use crate::text::{concat, itoa_u64, zero_padded};

verus! {

/// How many digits the number has in the name of a Function.
pub const NUMBER_WIDTH: usize = 9;

/// The Function with number `i`.
pub open spec fn is_toy_function(info: ToyFunctionInfo, i: int) -> bool {
    &&& info.id@ == "req"@ + crate::text::padded(i as nat, NUMBER_WIDTH as nat)
    &&& info.memory == 10 * i * MEBIBYTE
    &&& info.image_ref@ == "docker.io/ckatsak/nonexistent:0.0."@ + crate::text::decimal(i as nat)
}

/// The Functions that are registered for so many requests: one for each but the last, which
/// finds no Function.
pub fn toy_functions(num_requests: u32) -> (r: Vec<ToyFunctionInfo>)
    requires
        0 < num_requests,
        10 * (num_requests - 2) <= u32::MAX,
    ensures
        r@.len() == num_requests - 1,
        forall|i: int| 0 <= i < r@.len() ==> is_toy_function(#[trigger] r@[i], i),
{
    let mut r: Vec<ToyFunctionInfo> = Vec::new();
    let mut i: u32 = 0;
    while i < num_requests - 1
        invariant
            0 < num_requests,
            10 * (num_requests - 2) <= u32::MAX,
            i <= num_requests - 1,
            r@.len() == i,
            forall|j: int| 0 <= j < i ==> is_toy_function(#[trigger] r@[j], j),
        decreases num_requests - i,
    {
        r.push(
            ToyFunctionInfo {
                id: concat("req", zero_padded(i as u64, NUMBER_WIDTH).as_str()),
                memory: mebibytes(10 * i),
                image_ref: concat("docker.io/ckatsak/nonexistent:0.0.", itoa_u64(i as u64).as_str()),
            },
        );
        i = i + 1;
    }
    r
}

} // verus!
