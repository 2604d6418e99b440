use arenito_sim::mesh::face_indices;

#[test]
fn index_buffer_groups_into_faces() {
    let indices: Vec<usize> = vec![0, 1, 2, 2, 3, 0, 4, 5, 6];
    assert_eq!(
        face_indices(&indices, 7),
        Some(vec![(0, 1, 2), (2, 3, 0), (4, 5, 6)])
    );
}

#[test]
fn empty_index_buffer_has_no_faces() {
    assert_eq!(face_indices(&vec![], 0), Some(vec![]));
}

#[test]
fn incomplete_face_is_refused() {
    assert_eq!(face_indices(&vec![0, 1, 2, 3], 4), None);
    assert_eq!(face_indices(&vec![0, 1], 4), None);
}

#[test]
fn index_past_the_vertices_is_refused() {
    assert_eq!(face_indices(&vec![0, 1, 2, 0, 1, 3], 3), None);
    assert_eq!(face_indices(&vec![0, 1, 2, 0, 1, 2], 3), Some(vec![(0, 1, 2), (0, 1, 2)]));
}
