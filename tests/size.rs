use filescope::size::format_size;

#[test]
fn zero_bytes() {
    assert_eq!(format_size(0), "0.00 B");
}

#[test]
fn one_kilobyte() {
    assert_eq!(format_size(1024), "1.00 KB");
}

#[test]
fn one_and_a_half_kilobytes() {
    assert_eq!(format_size(1536), "1.50 KB");
}

#[test]
fn one_gigabyte() {
    assert_eq!(format_size(1_073_741_824), "1.00 GB");
}

#[test]
fn just_below_a_kilobyte_stays_in_bytes() {
    assert_eq!(format_size(1023), "1023.00 B");
}

#[test]
fn megabytes_and_terabytes() {
    assert_eq!(format_size(5 * 1024 * 1024), "5.00 MB");
    assert_eq!(format_size(1u64 << 40), "1.00 TB");
}

#[test]
fn ties_round_to_even() {
    // 1152 bytes is exactly 1.125 KB
    assert_eq!(format_size(1152), "1.12 KB");
    // 1160 bytes is 1.1328125 KB
    assert_eq!(format_size(1160), "1.13 KB");
}

#[test]
fn largest_value_stays_in_terabytes() {
    assert_eq!(format_size(u64::MAX), "16777216.00 TB");
    assert_eq!(format_size(1u64 << 50), "1024.00 TB");
}
