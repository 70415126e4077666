//! Access-pattern privacy: dummy requests mixed with real ones.

use vstd::prelude::*;

use crate::text::{decimal, push_decimal};

verus! {

/// The name of dummy request `i`.
pub open spec fn dummy_request(i: nat) -> Seq<char> {
    "dummy-segment-"@ + decimal(i)
}

/// `count` dummy segment requests, `dummy-segment-0` upwards.
pub fn generate_dummy_requests(count: usize) -> (r: Vec<String>)
    ensures
        r@.len() == count,
        forall|i: int| 0 <= i < count ==> (#[trigger] r@[i])@ == dummy_request(i as nat),
{
    let mut r: Vec<String> = Vec::new();
    let mut i: usize = 0;
    while i < count
        invariant
            0 <= i <= count,
            r@.len() == i,
            forall|k: int| 0 <= k < i ==> (#[trigger] r@[k])@ == dummy_request(k as nat),
        decreases count - i,
    {
        let mut s = "dummy-segment-".to_owned();
        push_decimal(&mut s, i as u64);
        r.push(s);
        i = i + 1;
    }
    r
}

} // verus!
