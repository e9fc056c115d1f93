use qpdf::array::{element_index, insertion_index};
use qpdf::{ArrayCursor, ObjectStreamMode, QPdfObjectType, QPdfStreamData, StreamDataMode, StreamDecodeLevel};

#[test]
fn type_codes_decode_in_engine_order() {
    let all = [
        QPdfObjectType::Uninitialized,
        QPdfObjectType::Reserved,
        QPdfObjectType::Null,
        QPdfObjectType::Boolean,
        QPdfObjectType::Integer,
        QPdfObjectType::Real,
        QPdfObjectType::String,
        QPdfObjectType::Name,
        QPdfObjectType::Array,
        QPdfObjectType::Dictionary,
        QPdfObjectType::Stream,
        QPdfObjectType::Operator,
        QPdfObjectType::InlineImage,
    ];
    for (code, t) in all.iter().enumerate() {
        assert_eq!(QPdfObjectType::from_qpdf_enum(code as u32), *t);
        assert_eq!(t.as_qpdf_enum(), code as u32);
    }
}

#[test]
fn absent_and_null_are_both_missing() {
    assert!(QPdfObjectType::Null.is_missing());
    assert!(QPdfObjectType::Uninitialized.is_missing());
    assert!(!QPdfObjectType::Boolean.is_missing());
    assert!(!QPdfObjectType::Dictionary.is_missing());
    assert!(!QPdfObjectType::Integer.is_missing());
}

#[test]
fn index_past_end_has_no_element() {
    assert_eq!(element_index(10, 3), None);
    assert_eq!(element_index(3, 3), None);
    assert_eq!(element_index(2, 3), Some(2));
    assert_eq!(element_index(0, 0), None);
    assert_eq!(element_index(0, -1), None);
    assert_eq!(element_index(usize::MAX, i32::MAX), None);
}

#[test]
fn insertion_may_append_but_not_go_past_end() {
    assert_eq!(insertion_index(3, 3), Some(3));
    assert_eq!(insertion_index(0, 0), Some(0));
    assert_eq!(insertion_index(4, 3), None);
    assert_eq!(insertion_index(0, -1), None);
}

#[test]
fn cursor_yields_each_index_in_order_then_stops() {
    let mut cursor = ArrayCursor::new();
    let mut seen = Vec::new();
    while let Some(i) = cursor.next_index(3) {
        seen.push(i);
    }
    assert_eq!(seen, vec![0, 1, 2]);
    assert_eq!(cursor.next_index(3), None);
    assert_eq!(cursor.position, 3);
}

#[test]
fn cursor_over_empty_array_yields_nothing() {
    let mut cursor = ArrayCursor::new();
    assert_eq!(cursor.next_index(0), None);
    assert_eq!(cursor.position, 0);
}

#[test]
fn stream_enums_map_to_engine_codes() {
    assert_eq!(StreamDecodeLevel::NoDecode.as_qpdf_enum(), 0);
    assert_eq!(StreamDecodeLevel::Generalized.as_qpdf_enum(), 1);
    assert_eq!(StreamDecodeLevel::Specialized.as_qpdf_enum(), 2);
    assert_eq!(StreamDecodeLevel::All.as_qpdf_enum(), 3);
    assert_eq!(ObjectStreamMode::Disable.as_qpdf_enum(), 0);
    assert_eq!(ObjectStreamMode::Preserve.as_qpdf_enum(), 1);
    assert_eq!(ObjectStreamMode::Generate.as_qpdf_enum(), 2);
    assert_eq!(StreamDataMode::Uncompress.as_qpdf_enum(), 0);
    assert_eq!(StreamDataMode::Preserve.as_qpdf_enum(), 1);
    assert_eq!(StreamDataMode::Compress.as_qpdf_enum(), 2);
}

#[test]
fn stream_data_owns_its_bytes() {
    let data = QPdfStreamData::new(vec![1, 2, 3, 4]);
    assert_eq!(data.len(), 4);
    assert!(!data.is_empty());
    assert_eq!(data.as_ref(), &[1, 2, 3, 4]);
    assert_eq!(data.as_slice(), &[1, 2, 3, 4]);
    assert_eq!(data.into_vec(), vec![1, 2, 3, 4]);
    let empty = QPdfStreamData::new(Vec::new());
    assert_eq!(empty.len(), 0);
    assert!(empty.is_empty());
}
