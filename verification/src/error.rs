//! Error values for capture operations.
//!
//! Three kinds of failure exist: a frame buffer too small for the current
//! output geometry, discovery finding no duplicatable output, and a failed
//! platform call tagged with the name of the API that failed.

use vstd::prelude::*;
use vstd::string::StringExecFns;

verus! {

/// The numeric code and system-formatted text of one failed platform call.
#[derive(Clone, Debug, PartialEq, Eq)]
pub struct WinError {
    pub code: u32,
    pub message: String,
}

/// An error returned by capture operations.
#[derive(Clone, Debug, PartialEq, Eq)]
pub enum Error {
    /// The destination buffer is smaller than the current output mode
    /// requires. Recoverable: grow the buffer and retry.
    InvalidBufferLength,
    /// Discovery found no output that can be duplicated.
    NoOutput,
    /// A platform call failed; `api` names the call for diagnostics.
    Windows { api: String, err: WinError },
}

/// The character for one hexadecimal digit value.
pub open spec fn spec_hex_digit(n: u32) -> char {
    if n == 0 {
        '0'
    } else if n == 1 {
        '1'
    } else if n == 2 {
        '2'
    } else if n == 3 {
        '3'
    } else if n == 4 {
        '4'
    } else if n == 5 {
        '5'
    } else if n == 6 {
        '6'
    } else if n == 7 {
        '7'
    } else if n == 8 {
        '8'
    } else if n == 9 {
        '9'
    } else if n == 10 {
        'A'
    } else if n == 11 {
        'B'
    } else if n == 12 {
        'C'
    } else if n == 13 {
        'D'
    } else if n == 14 {
        'E'
    } else {
        'F'
    }
}

/// The `i`-th hexadecimal digit value of `code`, counting from the most
/// significant digit.
pub open spec fn spec_nibble(code: u32, i: int) -> u32
    recommends
        0 <= i < 8,
{
    (code >> (((7 - i) * 4) as u32)) & 0xF
}

/// The eight hexadecimal digits of `code`, most significant first.
pub open spec fn spec_hex32(code: u32) -> Seq<char> {
    Seq::new(8, |i: int| spec_hex_digit(spec_nibble(code, i)))
}

/// The diagnostic text of an error, as `message` returns it.
pub open spec fn spec_message(e: Error) -> Seq<char> {
    match e {
        Error::InvalidBufferLength => "invalid buffer length"@,
        Error::NoOutput => "no output available"@,
        Error::Windows { api, err } => api@ + ": "@ + err.message@ + " (0x"@ + spec_hex32(err.code)
            + ")"@,
    }
}

/// Append the character for one hexadecimal digit value to `s`.
fn push_hex_digit(s: &mut String, n: u32)
    requires
        n < 16,
    ensures
        final(s)@ == old(s)@.push(spec_hex_digit(n)),
{
    if n == 0 {
        s.append("0");
        proof {
            reveal_strlit("0");
        }
    } else if n == 1 {
        s.append("1");
        proof {
            reveal_strlit("1");
        }
    } else if n == 2 {
        s.append("2");
        proof {
            reveal_strlit("2");
        }
    } else if n == 3 {
        s.append("3");
        proof {
            reveal_strlit("3");
        }
    } else if n == 4 {
        s.append("4");
        proof {
            reveal_strlit("4");
        }
    } else if n == 5 {
        s.append("5");
        proof {
            reveal_strlit("5");
        }
    } else if n == 6 {
        s.append("6");
        proof {
            reveal_strlit("6");
        }
    } else if n == 7 {
        s.append("7");
        proof {
            reveal_strlit("7");
        }
    } else if n == 8 {
        s.append("8");
        proof {
            reveal_strlit("8");
        }
    } else if n == 9 {
        s.append("9");
        proof {
            reveal_strlit("9");
        }
    } else if n == 10 {
        s.append("A");
        proof {
            reveal_strlit("A");
        }
    } else if n == 11 {
        s.append("B");
        proof {
            reveal_strlit("B");
        }
    } else if n == 12 {
        s.append("C");
        proof {
            reveal_strlit("C");
        }
    } else if n == 13 {
        s.append("D");
        proof {
            reveal_strlit("D");
        }
    } else if n == 14 {
        s.append("E");
        proof {
            reveal_strlit("E");
        }
    } else {
        s.append("F");
        proof {
            reveal_strlit("F");
        }
    }
    proof {
        assert(s@ =~= old(s)@.push(spec_hex_digit(n)));
    }
}

/// Format `code` as eight hexadecimal digits, most significant first.
fn hex32(code: u32) -> (s: String)
    ensures
        s@ == spec_hex32(code),
{
    let mut s = String::new();
    let mut i: u32 = 0;
    while i < 8
        invariant
            i <= 8,
            s@ =~= spec_hex32(code).subrange(0, i as int),
        decreases 8 - i,
    {
        let sh: u32 = (7 - i) * 4;
        let n: u32 = (code >> sh) & 0xF;
        assert(((code >> sh) & 0xFu32) < 16) by (bit_vector);
        assert(n == spec_nibble(code, i as int));
        push_hex_digit(&mut s, n);
        i = i + 1;
        proof {
            assert(s@ =~= spec_hex32(code).subrange(0, i as int));
        }
    }
    proof {
        assert(s@ =~= spec_hex32(code));
    }
    s
}

impl Error {
    /// The diagnostic text of this error: a fixed phrase for the
    /// buffer-length and no-output cases, and `api: message (0xCODE)` for a
    /// failed platform call.
    pub fn message(&self) -> (s: String)
        ensures
            s@ == spec_message(*self),
    {
        match self {
            Error::InvalidBufferLength => "invalid buffer length".to_owned(),
            Error::NoOutput => "no output available".to_owned(),
            Error::Windows { api, err } => {
                let mut s = api.clone();
                s.append(": ");
                s.append(err.message.as_str());
                s.append(" (0x");
                let h = hex32(err.code);
                s.append(h.as_str());
                s.append(")");
                proof {
                    assert(s@ =~= spec_message(*self));
                }
                s
            },
        }
    }
}

} // verus!
