use pc_monitor::helpers::{avg_vecu32, nvd_r2u64, pop_4u8};

#[test]
fn mean_of_three_cores() {
    assert_eq!(avg_vecu32(vec![10, 20, 30]), 20);
}

#[test]
fn mean_is_rounded_down() {
    assert_eq!(avg_vecu32(vec![10, 11]), 10);
    assert_eq!(avg_vecu32(vec![0, 0, 1]), 0);
    assert_eq!(avg_vecu32(vec![99, 100, 100, 100]), 99);
}

#[test]
fn mean_of_one_core_is_its_load() {
    assert_eq!(avg_vecu32(vec![73]), 73);
}

#[test]
fn mean_of_no_cores_is_zero() {
    assert_eq!(avg_vecu32(Vec::new()), 0);
}

#[test]
fn mean_of_the_largest_readings() {
    assert_eq!(avg_vecu32(vec![u32::MAX, u32::MAX, u32::MAX]), u32::MAX);
    assert_eq!(avg_vecu32(vec![u32::MAX, 0]), u32::MAX / 2);
}

#[test]
fn short_label_is_padded_with_zero_bytes() {
    assert_eq!(pop_4u8(b"GB"), [b'G', b'B', 0, 0]);
    assert_eq!(pop_4u8(b"B"), [b'B', 0, 0, 0]);
    assert_eq!(pop_4u8(b""), [0, 0, 0, 0]);
}

#[test]
fn long_label_is_cut_to_four_bytes() {
    assert_eq!(pop_4u8(b"ABCD"), *b"ABCD");
    assert_eq!(pop_4u8(b"ABCDEF"), *b"ABCD");
}

#[test]
fn reading_with_a_unit_behind_it() {
    assert_eq!(nvd_r2u64("45 %".to_string()), Some(45));
    assert_eq!(nvd_r2u64("8192 MiB".to_string()), Some(8192));
    assert_eq!(nvd_r2u64("0 %".to_string()), Some(0));
    assert_eq!(nvd_r2u64("12abc34".to_string()), Some(12));
}

#[test]
fn reading_as_json_text() {
    assert_eq!(nvd_r2u64("\"45 %\"".to_string()), Some(45));
    assert_eq!(nvd_r2u64("\"8192 MiB\"".to_string()), Some(8192));
    assert_eq!(nvd_r2u64("\"7\"".to_string()), Some(7));
}

#[test]
fn reading_of_digits_alone() {
    assert_eq!(nvd_r2u64("45".to_string()), Some(45));
    assert_eq!(nvd_r2u64("007".to_string()), Some(7));
    assert_eq!(nvd_r2u64("18446744073709551615".to_string()), Some(u64::MAX));
}

#[test]
fn reading_without_a_number_in_front() {
    assert_eq!(nvd_r2u64("".to_string()), None);
    assert_eq!(nvd_r2u64("\"".to_string()), None);
    assert_eq!(nvd_r2u64("\"\"".to_string()), None);
    assert_eq!(nvd_r2u64("N/A".to_string()), None);
    assert_eq!(nvd_r2u64("\"N/A\"".to_string()), None);
    assert_eq!(nvd_r2u64("null".to_string()), None);
    assert_eq!(nvd_r2u64(" 45".to_string()), None);
    assert_eq!(nvd_r2u64("-1".to_string()), None);
    assert_eq!(nvd_r2u64("\"\"45".to_string()), None);
    assert_eq!(nvd_r2u64("\u{663}\u{664}".to_string()), None);
}

#[test]
fn reading_too_large_for_64_bits() {
    assert_eq!(nvd_r2u64("18446744073709551616".to_string()), None);
    assert_eq!(nvd_r2u64("99999999999999999999999 MiB".to_string()), None);
    assert_eq!(nvd_r2u64("184467440737095516150".to_string()), None);
}
