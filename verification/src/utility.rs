//! Small helpers shared by the shader and program log queries.

use vstd::prelude::*;

verus! {

/// A blank, NUL-terminated byte buffer for the driver to write an info log
/// into: `len` spaces followed by one terminating zero byte.
pub fn create_blank_cstring(len: usize) -> (r: Vec<u8>)
    requires
        len < usize::MAX,
    ensures
        r@.len() == len + 1,
        forall|i: int| 0 <= i < len ==> r@[i] == 32u8,
        r@[len as int] == 0u8,
{
    let mut buff: Vec<u8> = Vec::new();
    let mut i: usize = 0;
    while i < len
        invariant
            i <= len,
            buff@.len() == i,
            forall|j: int| 0 <= j < i ==> buff@[j] == 32u8,
        decreases len - i,
    {
        buff.push(32u8);
        i = i + 1;
    }
    buff.push(0u8);
    buff
}

} // verus!
