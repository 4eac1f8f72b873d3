use rusty_duplication::{Error, WinError};

#[test]
fn format_error() {
    assert_eq!(Error::InvalidBufferLength.message(), "invalid buffer length");

    assert_eq!(
        Error::Windows {
            api: "api".to_string(),
            err: WinError { code: 0, message: "The operation completed successfully.".to_string() },
        }
        .message(),
        "api: The operation completed successfully. (0x00000000)"
    );
}

#[test]
fn format_no_output() {
    assert_eq!(Error::NoOutput.message(), "no output available");
}

#[test]
fn format_nonzero_code() {
    let e = Error::Windows {
        api: "AcquireNextFrame".to_string(),
        err: WinError { code: 0x887A_0027, message: "The timeout value has elapsed.".to_string() },
    };
    assert_eq!(
        e.message(),
        "AcquireNextFrame: The timeout value has elapsed. (0x887A0027)"
    );
}

#[test]
fn format_all_hex_digits() {
    let e = Error::Windows {
        api: "a".to_string(),
        err: WinError { code: 0x0123_4567, message: "m".to_string() },
    };
    assert_eq!(e.message(), "a: m (0x01234567)");
    let e = Error::Windows {
        api: "a".to_string(),
        err: WinError { code: 0x89AB_CDEF, message: "m".to_string() },
    };
    assert_eq!(e.message(), "a: m (0x89ABCDEF)");
}
