use inference::api::tensor::{byte_len, checked_byte_len, checked_element_count, element_count};

#[test]
fn element_count_is_the_product_of_the_dimensions() {
    assert_eq!(element_count(&[2, 1, 64]), 128);
    assert_eq!(element_count(&[1, 160]), 160);
    assert_eq!(element_count(&[7]), 7);
    assert_eq!(element_count(&[3, 4, 5]), 60);
}

#[test]
fn element_count_of_no_dimensions_is_one() {
    assert_eq!(element_count(&[]), 1);
}

#[test]
fn element_count_with_a_zero_dimension_is_zero() {
    assert_eq!(element_count(&[0, 5]), 0);
    assert_eq!(element_count(&[3, 0, 7]), 0);
    assert_eq!(element_count(&[1 << 40, 0]), 0);
}

#[test]
fn element_count_multiplies_negative_dimensions_as_i64() {
    assert_eq!(element_count(&[-2, -3]), 6);
    assert_eq!(element_count(&[-1, 0]), 0);
    assert_eq!(element_count(&[-1]), usize::MAX);
    assert_eq!(element_count(&[1, -1, 3]), usize::MAX - 2);
}

#[test]
fn byte_len_scales_the_count_by_the_element_size() {
    assert_eq!(byte_len(&[1, 160], 4), 640);
    assert_eq!(byte_len(&[2, 1, 64], 4), 512);
    assert_eq!(byte_len(&[1], 8), 8);
    assert_eq!(byte_len(&[], 2), 2);
    assert_eq!(byte_len(&[0, 9], 4), 0);
}

#[test]
fn byte_len_reads_negative_dimensions_as_usize() {
    assert_eq!(byte_len(&[-1, 0], 4), 0);
    assert_eq!(byte_len(&[-1], 1), usize::MAX);
    assert_eq!(byte_len(&[0, -5], 8), 0);
}

#[test]
fn checked_element_count_agrees_where_the_product_fits() {
    assert_eq!(checked_element_count(&[2, 1, 64]), Some(128));
    assert_eq!(checked_element_count(&[]), Some(1));
    assert_eq!(checked_element_count(&[1 << 40, 0]), Some(0));
    assert_eq!(checked_element_count(&[0, -1]), Some(0));
    assert_eq!(checked_element_count(&[-2, -3]), Some(6));
    assert_eq!(checked_element_count(&[-1]), Some(usize::MAX));
}

#[test]
fn checked_element_count_refuses_i64_overflow() {
    assert_eq!(checked_element_count(&[i64::MAX, i64::MAX]), None);
    assert_eq!(checked_element_count(&[1 << 40, 1 << 40, 0]), None);
    assert_eq!(checked_element_count(&[i64::MIN, -1]), None);
}

#[test]
fn checked_byte_len_cases() {
    assert_eq!(checked_byte_len(&[1, 160], 4), Some(640));
    assert_eq!(checked_byte_len(&[2, 1, 64], 4), Some(512));
    assert_eq!(checked_byte_len(&[-1, 0], 4), Some(0));
    assert_eq!(checked_byte_len(&[-1], 1), Some(usize::MAX));
    assert_eq!(checked_byte_len(&[0], usize::MAX), Some(0));
}

#[test]
fn checked_byte_len_refuses_usize_overflow() {
    assert_eq!(checked_byte_len(&[-2], 4), None);
    assert_eq!(checked_byte_len(&[-2, -3], 1), None);
    assert_eq!(checked_byte_len(&[1 << 62], 8), None);
    assert_eq!(checked_byte_len(&[1 << 40, 1 << 40, 0], 1), None);
}
