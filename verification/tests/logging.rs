//! User Logging decoding: exact values and each way the body can be
//! malformed.

use btmon::err::DecodeError;
use btmon::monitor::{LogPriority, UserLogging};

#[test]
fn user_logging_exact() {
    let body = [3u8, 4, b'b', b't', 0, 0xff, b'h', b'i', 0, 0xee];
    let ul = UserLogging::parse(&body).unwrap();
    assert_eq!(ul.prio, LogPriority::Error);
    assert_eq!(ul.id, "bt");
    assert_eq!(ul.msg, "hi");
}

#[test]
fn user_logging_priorities() {
    for (raw, prio) in [
        (0u8, LogPriority::Emerg),
        (1, LogPriority::Alert),
        (2, LogPriority::Crit),
        (3, LogPriority::Error),
        (4, LogPriority::Warn),
        (5, LogPriority::Notice),
        (6, LogPriority::Info),
        (7, LogPriority::Dbg),
        (8, LogPriority::Unknown(8)),
    ] {
        let body = [raw, 2, b'a', 0, 0];
        let ul = UserLogging::parse(&body).unwrap();
        assert_eq!(ul.prio, prio);
        // Resolving the same numeric code twice yields the same variant.
        let again = UserLogging::parse(&body).unwrap();
        assert_eq!(again.prio, prio);
    }
}

#[test]
fn user_logging_malformed() {
    // Too short for the priority and length bytes.
    assert_eq!(UserLogging::parse(&[3]), Err(DecodeError::Malformed));
    // Identifier region runs past the body.
    assert_eq!(UserLogging::parse(&[3, 5, b'a', 0]), Err(DecodeError::Malformed));
    // No NUL inside the identifier region.
    assert_eq!(UserLogging::parse(&[3, 1, b'a', b'm', 0]), Err(DecodeError::Malformed));
    // No NUL terminating the message.
    assert_eq!(UserLogging::parse(&[3, 2, b'a', 0, b'm']), Err(DecodeError::Malformed));
    // Identifier bytes are not UTF-8.
    assert_eq!(UserLogging::parse(&[3, 3, 0xc3, 0x28, 0, b'm', 0]), Err(DecodeError::Malformed));
    // Message bytes are not UTF-8.
    assert_eq!(UserLogging::parse(&[3, 2, b'a', 0, 0xc3, 0x28, 0]), Err(DecodeError::Malformed));
}
