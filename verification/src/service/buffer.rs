//! Byte buffers that cross the boundary as text.
//!
//! A buffer handed to the caller is terminated by a nul byte, so the bytes
//! before the terminator must hold none.

use vstd::prelude::*;
use vstd::string::*;

verus! {

/// The description of a response that cannot cross the boundary.
pub const NUL_IN_RESPONSE: &'static str = "nul byte found in response data";

/// Whether the bytes can be handed out as they are: none of them is nul.
pub open spec fn crosses_boundary(bytes: Seq<u8>) -> bool {
    forall|i: int| 0 <= i < bytes.len() ==> bytes[i] != 0
}

/// The bytes as they leave the boundary, or why they cannot.
pub open spec fn spec_seal(bytes: Seq<u8>) -> Result<Seq<u8>, Seq<char>> {
    if crosses_boundary(bytes) {
        Ok(bytes)
    } else {
        Err(NUL_IN_RESPONSE@)
    }
}

/// The position of the first nul byte, if there is one.
pub fn first_nul(bytes: &[u8]) -> (position: Option<usize>)
    ensures
        match position {
            Some(at) => at < bytes@.len() && bytes@[at as int] == 0 && crosses_boundary(
                bytes@.take(at as int),
            ),
            None => crosses_boundary(bytes@),
        },
{
    let mut i: usize = 0;
    while i < bytes.len()
        invariant
            i <= bytes@.len(),
            crosses_boundary(bytes@.take(i as int)),
        decreases bytes@.len() - i,
    {
        if bytes[i] == 0 {
            return Some(i);
        }
        let ghost seen = bytes@.take(i as int);
        let ghost next = bytes@.take(i + 1);
        assert forall|k: int| 0 <= k < next.len() implies next[k] != 0 by {
            if k < i {
                assert(seen[k] != 0);
            }
        }
        i += 1;
    }
    assert(bytes@.take(bytes@.len() as int) =~= bytes@);
    None
}

/// Checks that response bytes can cross the boundary and hands them on
/// unchanged; bytes that hold a nul byte are refused.
pub fn seal(bytes: Vec<u8>) -> (sealed: Result<Vec<u8>, String>)
    ensures
        match spec_seal(bytes@) {
            Ok(content) => sealed is Ok && sealed->Ok_0@ == content,
            Err(message) => sealed is Err && sealed->Err_0@ == message,
        },
{
    match first_nul(bytes.as_slice()) {
        Some(at) => {
            assert(bytes@.take(at as int) =~= bytes@.subrange(0, at as int));
            assert(bytes@[at as int] == 0);
            Err(String::from_str(NUL_IN_RESPONSE))
        },
        None => Ok(bytes),
    }
}

} // verus!
