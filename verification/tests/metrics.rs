use kubedesk_core::metrics::parse_memory_to_bytes;
use kubedesk_core::types::format_age;
use kubedesk_core::text::parse_u64;

#[test]
fn test_parse_memory_to_bytes() {
    assert_eq!(parse_memory_to_bytes("512"), 512);
    assert_eq!(parse_memory_to_bytes("1Ki"), 1024);
    assert_eq!(parse_memory_to_bytes("1024Ki"), 1024 * 1024);
    assert_eq!(parse_memory_to_bytes("1024Mi"), 1024 * 1024 * 1024);
    assert_eq!(parse_memory_to_bytes("2Gi"), 2 * 1024 * 1024 * 1024);
    assert_eq!(parse_memory_to_bytes("3Ti"), 3 * 1024u64.pow(4));
}

#[test]
fn test_parse_memory_trims_blanks() {
    assert_eq!(parse_memory_to_bytes("  2Gi \n"), 2 * 1024 * 1024 * 1024);
    assert_eq!(parse_memory_to_bytes("\t512 "), 512);
}

#[test]
fn test_parse_memory_unreadable_is_zero() {
    assert_eq!(parse_memory_to_bytes(""), 0);
    assert_eq!(parse_memory_to_bytes("   "), 0);
    assert_eq!(parse_memory_to_bytes("abc"), 0);
    assert_eq!(parse_memory_to_bytes("12abcMi"), 0);
    assert_eq!(parse_memory_to_bytes("Mi"), 0);
    // a number too wide for 64 bits reads as zero, like any unreadable one
    assert_eq!(parse_memory_to_bytes("99999999999999999999999999"), 0);
}

#[test]
fn test_parse_memory_saturates() {
    // fits as a number, but the scaled product exceeds 64 bits
    assert_eq!(parse_memory_to_bytes("18446744073709551615Ki"), u64::MAX);
}

#[test]
fn test_parse_u64() {
    assert_eq!(parse_u64("0"), Some(0));
    assert_eq!(parse_u64("18446744073709551615"), Some(u64::MAX));
    assert_eq!(parse_u64("18446744073709551616"), None);
    assert_eq!(parse_u64(""), None);
    assert_eq!(parse_u64("12x"), None);
    assert_eq!(parse_u64("007"), Some(7));
}

#[test]
fn test_format_age() {
    assert_eq!(format_age(0), "0s");
    assert_eq!(format_age(59), "59s");
    assert_eq!(format_age(60), "1m");
    assert_eq!(format_age(3 * 3600 + 40 * 60), "3h");
    assert_eq!(format_age(49 * 3600), "2d");
    assert_eq!(format_age(-5), "-5s");
}
