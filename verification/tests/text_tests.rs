use zerobyte::endpoints::get_backend_url;
use zerobyte::endpoints::health_url;
use zerobyte::endpoints::shutdown_url;
use zerobyte::logging::chrono_lite_timestamp;
use zerobyte::logging::format_log_line;
use zerobyte::logging::log_error;
use zerobyte::text::contains_token;
use zerobyte::text::format_u64;

#[test]
fn contains_token_finds_a_token_anywhere() {
    assert!(contains_token("STATE : 4 RUNNING", "RUNNING"));
    assert!(contains_token("RUNNING", "RUNNING"));
    assert!(contains_token("xxRUNNINGxx", "RUNNING"));
}

#[test]
fn contains_token_rejects_a_missing_token() {
    assert!(!contains_token("STATE : 1 STOPPED", "RUNNING"));
    assert!(!contains_token("RUNNIN", "RUNNING"));
    assert!(!contains_token("", "RUNNING"));
}

#[test]
fn the_empty_token_is_contained_everywhere() {
    assert!(contains_token("anything", ""));
    assert!(contains_token("", ""));
}

#[test]
fn decimal_formatting_matches_the_usual_notation() {
    assert_eq!(format_u64(0), "0");
    assert_eq!(format_u64(7), "7");
    assert_eq!(format_u64(10), "10");
    assert_eq!(format_u64(4096), "4096");
    assert_eq!(format_u64(4097), "4097");
    assert_eq!(format_u64(18446744073709551615), "18446744073709551615");
}

#[test]
fn log_lines_carry_timestamp_and_message() {
    assert_eq!(format_log_line("1700000000", "Service starting..."), "[1700000000] Service starting...");
}

#[test]
fn error_entries_carry_the_fixed_prefix() {
    assert_eq!(log_error("Failed to restart server"), "ERROR: Failed to restart server");
}

#[test]
fn timestamps_are_seconds_in_decimal_or_the_zero_digit() {
    assert_eq!(chrono_lite_timestamp(Some(1700000000)), "1700000000");
    assert_eq!(chrono_lite_timestamp(Some(0)), "0");
    assert_eq!(chrono_lite_timestamp(None), "0");
}

#[test]
fn backend_urls_carry_the_port_in_decimal() {
    assert_eq!(get_backend_url(4096), "http://localhost:4096");
    assert_eq!(get_backend_url(4097), "http://localhost:4097");
    assert_eq!(get_backend_url(80), "http://localhost:80");
}

#[test]
fn the_well_known_endpoints_hang_off_the_backend_url() {
    assert_eq!(health_url(4097), "http://localhost:4097/healthcheck");
    assert_eq!(shutdown_url(4096), "http://localhost:4096/api/shutdown");
}
