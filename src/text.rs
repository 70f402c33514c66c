use vstd::prelude::*;
use vstd::string::StringSliceAdditionalSpecFns;

verus! {

/// Whether a byte string holds no NUL byte, so that it can be handed to the
/// driver as a NUL-terminated string.
pub open spec fn is_nul_free(bytes: Seq<u8>) -> bool {
    forall|i: int| 0 <= i < bytes.len() ==> bytes[i] != 0u8
}

/// Whether the UTF-8 bytes of `s` hold no NUL byte.
pub fn nul_free(s: &str) -> (r: bool)
    ensures
        r == is_nul_free(s.spec_bytes()),
{
    let bytes = s.as_bytes();
    let mut i: usize = 0;
    while i < bytes.len()
        invariant
            bytes@ == s.spec_bytes(),
            i <= bytes@.len(),
            forall|j: int| 0 <= j < i ==> bytes@[j] != 0u8,
        decreases bytes@.len() - i,
    {
        if bytes[i] == 0u8 {
            return false;
        }
        i = i + 1;
    }
    true
}

} // verus!
