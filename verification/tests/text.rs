//! Decimal rendering used for numeric query parameters.

use ref_files_mcp_server_rs::text::decimal_string;

#[test]
fn decimal_matches_to_string() {
    for n in [0u32, 1, 9, 10, 11, 99, 100, 12345, 4_000_000_000, u32::MAX] {
        assert_eq!(decimal_string(n), n.to_string());
    }
}
