use ecdsa_spartan2::size::format_size;

fn float_report(bytes: u64) -> String {
    if bytes < 1024 {
        format!("{} B", bytes)
    } else if bytes < 1024 * 1024 {
        format!("{:.2} KB", bytes as f64 / 1024.0)
    } else {
        format!("{:.2} MB", bytes as f64 / (1024.0 * 1024.0))
    }
}

#[test]
fn bytes_below_one_kib() {
    assert_eq!(format_size(0), "0 B");
    assert_eq!(format_size(7), "7 B");
    assert_eq!(format_size(1023), "1023 B");
}

#[test]
fn kib_values() {
    assert_eq!(format_size(1024), "1.00 KB");
    assert_eq!(format_size(1536), "1.50 KB");
    assert_eq!(format_size(1048575), "1024.00 KB");
}

#[test]
fn mib_values() {
    assert_eq!(format_size(1048576), "1.00 MB");
    assert_eq!(format_size(3 * 1048576 + 524288), "3.50 MB");
}

#[test]
fn every_kib_value_matches_float_printing() {
    for b in 1024u64..1048576 {
        assert_eq!(format_size(b), float_report(b), "bytes = {}", b);
    }
}

#[test]
fn mib_values_match_float_printing() {
    let mut x: u64 = 0x9e37_79b9_7f4a_7c15;
    for shift in 0..64u32 {
        for _ in 0..2000 {
            x = x.wrapping_mul(6364136223846793005).wrapping_add(1442695040888963407);
            let b = (x >> shift).max(1048576);
            assert_eq!(format_size(b), float_report(b), "bytes = {}", b);
        }
    }
    for b in [u64::MAX, u64::MAX - 1, 1u64 << 53, (1u64 << 53) + 1, (1u64 << 54) + 2, (1u64 << 54) + 6] {
        assert_eq!(format_size(b), float_report(b), "bytes = {}", b);
    }
    for b in 1048576u64..1048576 + 200000 {
        assert_eq!(format_size(b), float_report(b), "bytes = {}", b);
    }
}
