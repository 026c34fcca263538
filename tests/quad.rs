use sinewaves::quad::{quad_index_bytes, quad_indices, QUAD_INDEX_COUNT};

#[test]
fn quad_index_values() {
    assert_eq!(quad_indices(), [0, 1, 3, 1, 2, 3]);
    assert_eq!(quad_indices().len() as u32, QUAD_INDEX_COUNT);
}

#[test]
fn quad_triangles_are_counter_clockwise() {
    let corners: [(i32, i32); 4] = [(-1, 1), (-1, -1), (1, -1), (1, 1)];
    for t in quad_indices().chunks(3) {
        let a = corners[t[0] as usize];
        let b = corners[t[1] as usize];
        let c = corners[t[2] as usize];
        let turn = (b.0 - a.0) * (c.1 - a.1) - (b.1 - a.1) * (c.0 - a.0);
        assert!(turn > 0);
    }
}

#[test]
fn quad_index_bytes_native_order() {
    let bytes = quad_index_bytes();
    assert_eq!(bytes.len(), 12);
    let back: Vec<u16> = bytes
        .chunks(2)
        .map(|p| u16::from_ne_bytes([p[0], p[1]]))
        .collect();
    assert_eq!(back, vec![0, 1, 3, 1, 2, 3]);
}

#[test]
fn quad_index_bytes_high_bytes_are_zero() {
    let bytes = quad_index_bytes();
    let nonzero: Vec<u8> = bytes.iter().copied().filter(|b| *b != 0).collect();
    assert_eq!(nonzero, vec![1, 3, 1, 2, 3]);
}
