//! The heap buffer backend: capture frames into a `Vec<u8>`.

use super::{Capturer, CapturerBuffer};
use crate::error::Error;
use crate::ext::OutDuplDescExt;
use crate::model::{OutDuplDesc, OutputDesc};
use vstd::prelude::*;

verus! {

impl CapturerBuffer for Vec<u8> {
    open spec fn spec_bytes(&self) -> Seq<u8> {
        self@
    }

    fn as_bytes(&self) -> (r: &[u8]) {
        self.as_slice()
    }

    fn as_bytes_mut(&mut self) -> (r: &mut [u8]) {
        self.as_mut_slice()
    }
}

/// Capture screen frames to a `Vec<u8>`.
pub type VecCapturer = Capturer<Vec<u8>>;

impl Capturer<Vec<u8>> {
    /// Create a capturer whose buffer is a zero-filled heap vector of
    /// exactly the size the duplication mode requires.
    pub fn allocate(dupl_desc: &OutDuplDesc, output_desc: &OutputDesc) -> (r: Result<
        VecCapturer,
        Error,
    >)
        requires
            dupl_desc.spec_buffer_size() <= usize::MAX,
        ensures
            r is Ok,
            r matches Ok(c) ==> {
                &&& c.buffer@ == Seq::new(dupl_desc.spec_buffer_size() as nat, |i: int| 0u8)
                &&& c.texture_desc == super::spec_readable_texture_desc(
                    *dupl_desc,
                    *output_desc,
                )
                &&& c.pointer_shape_buffer@ == Seq::<u8>::empty()
                &&& c.timeout_ms == 300
            },
    {
        let factory = |n: usize| -> (b: Result<Vec<u8>, Error>)
            ensures
                b matches Ok(v) && v@ == Seq::new(n as nat, |i: int| 0u8),
            {
                let v = vec![0u8; n];
                proof {
                    assert(v@ =~= Seq::new(n as nat, |i: int| 0u8));
                }
                Ok(v)
            };
        let r = Capturer::new(dupl_desc, output_desc, factory);
        match r {
            Ok(c) => Ok(c),
            Err(e) => {
                proof {
                    assert(false);
                }
                Err(e)
            },
        }
    }
}

} // verus!
