//! Name handling for the shared-memory buffer backend.
//!
//! A shared frame buffer is identified by a caller-chosen name: one
//! process creates the named section, others open it by the same name.
//! The platform takes the name as a NUL-terminated string, so a name with
//! an interior NUL byte is not representable and is rejected.

use crate::error::{Error, WinError};
use vstd::prelude::*;
use vstd::string::StringExecFns;

verus! {

/// Turn a section name into the NUL-terminated platform string the
/// mapping calls take: the name's bytes with one terminating NUL
/// appended. Fails exactly when the name holds an interior NUL byte.
pub fn shared_memory_name(name: &[u8]) -> (r: Result<Vec<u8>, Error>)
    ensures
        match r {
            Ok(v) => !name@.contains(0u8) && v@ == name@.push(0u8),
            Err(e) => {
                &&& name@.contains(0u8)
                &&& e matches Error::Windows { api, err } && api@ == "CString::new"@
                    && err.message@ == "nul byte found in provided data"@ && err.code == 0
            },
        },
{
    let len = name.len();
    let mut v: Vec<u8> = Vec::new();
    let mut i: usize = 0;
    while i < len
        invariant
            i <= len,
            len == name@.len(),
            v@ == name@.subrange(0, i as int),
            forall|k: int| 0 <= k < i ==> name@[k] != 0u8,
        decreases len - i,
    {
        let b = *vstd::slice::slice_index_get(name, i);
        if b == 0 {
            return Err(
                Error::Windows {
                    api: "CString::new".to_owned(),
                    err: WinError { code: 0, message: "nul byte found in provided data".to_owned() },
                },
            );
        }
        v.push(b);
        i = i + 1;
        proof {
            assert(v@ =~= name@.subrange(0, i as int));
        }
    }
    v.push(0);
    proof {
        assert(v@ =~= name@.push(0u8));
        assert(!name@.contains(0u8));
    }
    Ok(v)
}

} // verus!
