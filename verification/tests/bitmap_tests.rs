//! Tests for the bitmap engine, including the indicator cascade and the
//! byte and hex round trips.

use iso8583_core::Bitmap;

#[test]
fn test_bitmap_new() {
    let bitmap = Bitmap::new();
    assert_eq!(bitmap.get_set_fields().len(), 0);
    assert!(!bitmap.has_secondary_bitmap());
}

#[test]
fn test_bitmap_set_and_is_set() {
    let mut bitmap = Bitmap::new();

    bitmap.set(2).unwrap();
    bitmap.set(3).unwrap();
    bitmap.set(4).unwrap();

    assert!(bitmap.is_set(2));
    assert!(bitmap.is_set(3));
    assert!(bitmap.is_set(4));
    assert!(!bitmap.is_set(5));
}

#[test]
fn test_bitmap_clear() {
    let mut bitmap = Bitmap::new();

    bitmap.set(2).unwrap();
    assert!(bitmap.is_set(2));

    bitmap.clear(2).unwrap();
    assert!(!bitmap.is_set(2));
}

#[test]
fn bitmap_test_get_set_fields() {
    let mut bitmap = Bitmap::new();

    bitmap.set(2).unwrap();
    bitmap.set(3).unwrap();
    bitmap.set(11).unwrap();
    bitmap.set(41).unwrap();

    let fields = bitmap.get_set_fields();
    assert_eq!(fields, vec![2, 3, 11, 41]);
}

#[test]
fn bitmap_test_secondary_bitmap() {
    let mut bitmap = Bitmap::new();

    // Setting a field > 64 should automatically set field 1
    bitmap.set(70).unwrap();

    assert!(bitmap.is_set(1));
    assert!(bitmap.is_set(70));
    assert!(bitmap.has_secondary_bitmap());
    assert_eq!(bitmap.bitmap_count(), 2);
}

#[test]
fn test_tertiary_bitmap() {
    let mut bitmap = Bitmap::new();

    // Setting a field > 128 should set fields 1 and 65
    bitmap.set(150).unwrap();

    assert!(bitmap.is_set(1));
    assert!(bitmap.is_set(65));
    assert!(bitmap.is_set(150));
    assert!(bitmap.has_tertiary_bitmap());
    assert_eq!(bitmap.bitmap_count(), 3);
}

#[test]
fn test_to_bytes_and_from_bytes() {
    let mut bitmap = Bitmap::new();
    bitmap.set(2).unwrap();
    bitmap.set(3).unwrap();
    bitmap.set(4).unwrap();

    let bytes = bitmap.to_bytes();
    let restored = Bitmap::from_bytes(&bytes).unwrap();

    assert_eq!(bitmap, restored);
}

#[test]
fn test_to_hex_and_from_hex() {
    let mut bitmap = Bitmap::new();
    bitmap.set(2).unwrap();
    bitmap.set(3).unwrap();
    bitmap.set(4).unwrap();

    let hex = bitmap.to_hex();
    let restored = Bitmap::from_hex(&hex).unwrap();

    assert_eq!(bitmap, restored);
}

#[test]
fn test_common_bitmap_pattern() {
    let mut bitmap = Bitmap::new();
    bitmap.set(2).unwrap();
    bitmap.set(3).unwrap();
    bitmap.set(4).unwrap();
    bitmap.set(7).unwrap();
    bitmap.set(11).unwrap();
    bitmap.set(12).unwrap();
    bitmap.set(13).unwrap();
    bitmap.set(22).unwrap();
    bitmap.set(41).unwrap();
    bitmap.set(42).unwrap();
    bitmap.set(49).unwrap();

    let fields = bitmap.get_set_fields();
    assert_eq!(fields, vec![2, 3, 4, 7, 11, 12, 13, 22, 41, 42, 49]);
}

#[test]
fn test_invalid_field_numbers() {
    let mut bitmap = Bitmap::new();

    assert!(bitmap.set(0).is_err());
    assert!(bitmap.set(193).is_err());
    assert!(!bitmap.is_set(0));
    assert!(!bitmap.is_set(193));
}

#[test]
fn test_bitmap_display() {
    let mut bitmap = Bitmap::new();
    bitmap.set(2).unwrap();

    let display = bitmap.to_hex();
    assert!(display.len() > 0);
    assert!(display.chars().all(|c| c.is_ascii_hexdigit()));
}

#[test]
fn test_new_bitmap() {
    let bitmap = Bitmap::new();
    assert!(bitmap.is_empty());
}

#[test]
fn test_set_and_check() {
    let mut bitmap = Bitmap::new();
    assert!(bitmap.set(2).is_ok());
    assert!(bitmap.is_set(2));
    assert!(!bitmap.is_set(3));
}

#[test]
fn test_clear() {
    let mut bitmap = Bitmap::new();
    bitmap.set(2).unwrap();
    assert!(bitmap.is_set(2));
    bitmap.clear(2).unwrap();
    assert!(!bitmap.is_set(2));
}

#[test]
fn bitmap_simd_test_secondary_bitmap() {
    let mut bitmap = Bitmap::new();
    bitmap.set(70).unwrap();
    assert!(bitmap.is_set(1));
    assert!(bitmap.is_set(70));
}

#[test]
fn test_roundtrip() {
    let mut bitmap = Bitmap::new();
    bitmap.set(2).unwrap();
    bitmap.set(3).unwrap();
    bitmap.set(4).unwrap();

    let bytes = bitmap.to_bytes();
    let restored = Bitmap::from_bytes(&bytes).unwrap();

    assert_eq!(bitmap, restored);
}

#[test]
fn bitmap_simd_test_get_set_fields() {
    let mut bitmap = Bitmap::new();
    bitmap.set(2).unwrap();
    bitmap.set(4).unwrap();
    bitmap.set(11).unwrap();

    let fields = bitmap.get_set_fields();

    assert!(fields.contains(&2));
    assert!(fields.contains(&4));
    assert!(fields.contains(&11));
}

#[test]
fn test_bounds() {
    let mut bitmap = Bitmap::new();
    assert!(bitmap.set(0).is_err());
    assert!(bitmap.set(193).is_err());
}

#[test]
fn test_bitmap_hex_exact() {
    // Field 2 is the second-highest bit of the first byte; a hex encoder
    // that handed its input back unchanged would fail this.
    let mut bitmap = Bitmap::new();
    bitmap.set(2).unwrap();
    assert_eq!(bitmap.to_hex(), "4000000000000000");
}

#[test]
fn test_bitmap_cascade_all_ranges() {
    let mut low = Bitmap::new();
    low.set(64).unwrap();
    assert!(low.is_set(64));
    assert!(!low.is_set(1));

    let mut mid = Bitmap::new();
    mid.set(65).unwrap();
    assert!(mid.is_set(65));
    assert!(mid.is_set(1));

    let mut high = Bitmap::new();
    high.set(192).unwrap();
    assert!(high.is_set(192));
    assert!(high.is_set(1));
    assert!(high.is_set(65));

    assert!(!high.get_set_fields().contains(&1));
    assert!(!high.get_set_fields().contains(&65));
}
