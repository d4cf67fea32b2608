//! The branch filter: only events for the main branch trigger a deployment.
//!
//! The branch reference is matched by suffix — any reference ending in
//! `/master` proceeds, whatever its namespace prefix (`refs/heads/`, …) —
//! so the filter tolerates varying reference namespaces.

use vstd::prelude::*;
use vstd::string::StringSliceAdditionalSpecFns;
use crate::byteops::ends_with;

verus! {

/// `/master` in ASCII: the suffix that marks the main branch.
pub open spec fn master_suffix() -> Seq<u8> {
    seq![47u8, 109u8, 97u8, 115u8, 116u8, 101u8, 114u8]
}

/// Whether a branch reference denotes the main branch: it ends in `/master`.
pub open spec fn is_master_ref(r: Seq<u8>) -> bool {
    master_suffix().is_suffix_of(r)
}

fn master_suffix_vec() -> (v: Vec<u8>)
    ensures
        v@ == master_suffix(),
{
    let v: Vec<u8> = vec![47u8, 109u8, 97u8, 115u8, 116u8, 101u8, 114u8];
    proof {
        assert(v@ =~= master_suffix());
    }
    v
}

/// Decide whether the event's branch reference should trigger a deployment.
pub fn branch_is_master(branch_ref: &str) -> (r: bool)
    ensures
        r == is_master_ref(branch_ref.spec_bytes()),
{
    let suf = master_suffix_vec();
    ends_with(branch_ref.as_bytes(), suf.as_slice())
}

} // verus!
