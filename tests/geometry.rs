use renderer::geometry::{convert_indices, fit_to_count, primitive_indices, sequential_indices, IndexData};

#[test]
fn convert_indices_widens_each_width() {
    assert_eq!(convert_indices(IndexData::U8(vec![0, 2, 255])), vec![0u32, 2, 255]);
    assert_eq!(convert_indices(IndexData::U16(vec![1, 65535])), vec![1u32, 65535]);
    assert_eq!(convert_indices(IndexData::U32(vec![7, 70000])), vec![7u32, 70000]);
    assert_eq!(convert_indices(IndexData::U8(vec![])), Vec::<u32>::new());
}

#[test]
fn sequential_indices_count_up() {
    assert_eq!(sequential_indices(4), vec![0, 1, 2, 3]);
    assert!(sequential_indices(0).is_empty());
}

#[test]
fn primitive_indices_prefers_stored() {
    assert_eq!(primitive_indices(Some(IndexData::U16(vec![2, 1, 0])), 3), vec![2, 1, 0]);
    assert_eq!(primitive_indices(None, 3), vec![0, 1, 2]);
}

#[test]
fn fit_to_count_pads_and_cuts() {
    assert_eq!(fit_to_count(vec![1, 2], 4, 9), vec![1, 2, 9, 9]);
    assert_eq!(fit_to_count(vec![1, 2, 3, 4], 2, 9), vec![1, 2]);
    assert_eq!(fit_to_count(Vec::new(), 3, [0.0f32, 1.0, 0.0]), vec![[0.0, 1.0, 0.0]; 3]);
    assert_eq!(fit_to_count(vec![5, 6], 2, 0), vec![5, 6]);
}
