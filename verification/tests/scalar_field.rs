use sdf_visualizer::{central_difference_points, sample_count, ScalarField};

fn field() -> ScalarField<u32> {
    ScalarField { x_len: 3, y_len: 2, z_len: 2, data: (0..12).collect() }
}

#[test]
fn samples_are_read_in_row_major_order() {
    let f = field();
    assert_eq!(f.value_at(0, 0, 0), Some(&0));
    assert_eq!(f.value_at(2, 0, 0), Some(&2));
    assert_eq!(f.value_at(0, 1, 0), Some(&3));
    assert_eq!(f.value_at(1, 1, 1), Some(&10));
    assert_eq!(f.position(2, 1, 1), Some(11));
}

#[test]
fn points_past_a_row_read_the_next_row() {
    let f = field();
    // x == x_len wraps to the start of the next row
    assert_eq!(f.value_at(3, 0, 0), Some(&3));
    assert_eq!(f.value_at(3, 1, 1), None);
    assert_eq!(f.value_at(0, 0, 2), None);
}

#[test]
fn huge_points_are_out_of_range() {
    let f = field();
    assert_eq!(f.position(usize::MAX, 0, 0), None);
    assert_eq!(f.position(0, usize::MAX, 0), None);
    assert_eq!(f.position(0, 0, usize::MAX), None);
    assert_eq!(f.position(usize::MAX, usize::MAX, usize::MAX), None);
}

#[test]
fn sample_count_reports_overflow() {
    assert_eq!(sample_count(3, 4, 5), Some(60));
    assert_eq!(sample_count(usize::MAX, 2, 1), None);
    assert_eq!(sample_count(usize::MAX, usize::MAX, 0), Some(0));
    assert_eq!(sample_count(1 << 40, 1 << 30, 1), None);
}

#[test]
fn central_difference_points_saturate() {
    assert_eq!(
        central_difference_points(1, 2, 3),
        [(2, 2, 3), (0, 2, 3), (1, 3, 3), (1, 1, 3), (1, 2, 4), (1, 2, 2)]
    );
    let p = central_difference_points(0, usize::MAX, 0);
    assert_eq!(p[1], (0, usize::MAX, 0));
    assert_eq!(p[2], (0, usize::MAX, 0));
    assert_eq!(p[5], (0, usize::MAX, 0));
}

#[test]
fn byte_field_takes_the_leading_samples() {
    let bytes: Vec<u8> = (10..30).collect();
    let f = ScalarField::from_bytes_with_size(&bytes, 2, 3, 2).expect("enough bytes");
    assert_eq!((f.x_len, f.y_len, f.z_len), (2, 3, 2));
    assert_eq!(f.data, (10..22).collect::<Vec<u8>>());
    assert_eq!(f.value_at(1, 2, 1), Some(&21));
    assert_eq!(f.value_at(0, 1, 0), Some(&12));
}

#[test]
fn byte_field_needs_enough_bytes() {
    let bytes = vec![7u8; 11];
    assert!(ScalarField::from_bytes_with_size(&bytes, 2, 3, 2).is_none());
    let exact = ScalarField::from_bytes_with_size(&bytes[..], 11, 1, 1).expect("exact");
    assert_eq!(exact.data.len(), 11);
    assert!(ScalarField::from_bytes_with_size(&bytes, usize::MAX, 2, 1).is_none());
    let empty = ScalarField::from_bytes_with_size(&[], 0, 5, 5).expect("no samples");
    assert!(empty.data.is_empty());
}
