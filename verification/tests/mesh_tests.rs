use tinystorm::mesh::{cube_indices, gather_vertices, sphere_indices, Attribute, Layout};

#[test]
fn attribute_sizes_match_their_scalar_widths() {
    assert_eq!(Attribute::Float.size_in_bytes(), 4);
    assert_eq!(Attribute::Vec2.size_in_bytes(), 8);
    assert_eq!(Attribute::Vec3.size_in_bytes(), 12);
    assert_eq!(Attribute::Vec4.size_in_bytes(), 16);

    assert_eq!(Attribute::Double.size_in_bytes(), 8);
    assert_eq!(Attribute::DVec2.size_in_bytes(), 16);
    assert_eq!(Attribute::DVec3.size_in_bytes(), 24);
    assert_eq!(Attribute::DVec4.size_in_bytes(), 32);

    assert_eq!(Attribute::Int.size_in_bytes(), 4);
    assert_eq!(Attribute::IVec2.size_in_bytes(), 8);
    assert_eq!(Attribute::IVec3.size_in_bytes(), 12);
    assert_eq!(Attribute::IVec4.size_in_bytes(), 16);

    assert_eq!(Attribute::UInt.size_in_bytes(), 4);
    assert_eq!(Attribute::UVec2.size_in_bytes(), 8);
    assert_eq!(Attribute::UVec3.size_in_bytes(), 12);
    assert_eq!(Attribute::UVec4.size_in_bytes(), 16);
}

#[test]
fn attribute_component_counts() {
    assert_eq!(Attribute::Float.component_count(), 1);
    assert_eq!(Attribute::Vec2.component_count(), 2);
    assert_eq!(Attribute::DVec3.component_count(), 3);
    assert_eq!(Attribute::UVec4.component_count(), 4);
    assert_eq!(Attribute::IVec2.component_count(), 2);
}

#[test]
fn built_in_layouts_list_their_attributes() {
    assert_eq!(
        Layout::default_3d().attributes(),
        &[Attribute::Vec3, Attribute::Vec2, Attribute::Vec3]
    );
    assert_eq!(
        Layout::simple_3d().attributes(),
        &[Attribute::Vec3, Attribute::Vec3]
    );
    assert_eq!(
        Layout::default_2d().attributes(),
        &[Attribute::Vec2, Attribute::Vec2]
    );
    assert_eq!(Layout::basic_2d().attributes(), &[Attribute::Vec2]);
    assert_eq!(Layout::default().attributes(), &[] as &[Attribute]);
}

#[test]
fn stride_is_the_sum_of_attribute_sizes() {
    assert_eq!(Layout::default_3d().stride_in_bytes(), 12 + 8 + 12);
    assert_eq!(Layout::simple_3d().stride_in_bytes(), 12 + 12);
    assert_eq!(Layout::default_2d().stride_in_bytes(), 8 + 8);
    assert_eq!(Layout::basic_2d().stride_in_bytes(), 8);
    assert_eq!(Layout::default().stride_in_bytes(), 0);
}

#[test]
fn next_attribute_appends_and_grows_the_stride() {
    let layout = Layout::default()
        .next_attribute(Attribute::Vec2)
        .next_attribute(Attribute::Vec2)
        .next_attribute(Attribute::Vec3);
    assert_eq!(
        layout.attributes(),
        &[Attribute::Vec2, Attribute::Vec2, Attribute::Vec3]
    );
    assert_eq!(layout.stride_in_bytes(), 8 + 8 + 12);
}

#[test]
fn offsets_are_partial_sums_of_the_sizes() {
    let pointers = Layout::default_3d().attribute_pointers();
    assert_eq!(pointers.len(), 3);

    assert_eq!(pointers[0].index, 0);
    assert_eq!(pointers[0].attribute, Attribute::Vec3);
    assert_eq!(pointers[0].offset, 0);

    assert_eq!(pointers[1].index, 1);
    assert_eq!(pointers[1].attribute, Attribute::Vec2);
    assert_eq!(pointers[1].offset, 12);

    assert_eq!(pointers[2].index, 2);
    assert_eq!(pointers[2].attribute, Attribute::Vec3);
    assert_eq!(pointers[2].offset, 12 + 8);
}

#[test]
fn offsets_of_a_mixed_layout() {
    let pointers = Layout::default()
        .next_attribute(Attribute::DVec2)
        .next_attribute(Attribute::Float)
        .next_attribute(Attribute::UVec3)
        .attribute_pointers();
    assert_eq!(pointers.len(), 3);
    assert_eq!(pointers[0].offset, 0);
    assert_eq!(pointers[1].offset, 16);
    assert_eq!(pointers[2].offset, 20);
}

#[test]
fn vertex_count_divides_by_the_stride() {
    // 8 vertices of 2 floats: 64 bytes at a stride of 8.
    assert_eq!(Layout::basic_2d().vertex_count(64), 8);
    // Trailing bytes that do not fill a whole vertex are dropped.
    assert_eq!(Layout::basic_2d().vertex_count(65), 8);
    assert_eq!(Layout::default_3d().vertex_count(96), 3);
    assert_eq!(Layout::default_3d().vertex_count(0), 0);
}

#[test]
fn sphere_indices_of_a_single_cell() {
    assert_eq!(sphere_indices(1, 1), vec![0, 2, 1, 2, 3, 1]);
}

#[test]
fn sphere_indices_of_a_two_by_two_grid() {
    let ind = sphere_indices(2, 2);
    assert_eq!(ind.len(), 24);
    assert_eq!(
        ind,
        vec![
            0, 3, 1, 3, 4, 1, // cell (0, 0)
            1, 4, 2, 4, 5, 2, // cell (0, 1)
            3, 6, 4, 6, 7, 4, // cell (1, 0)
            4, 7, 5, 7, 8, 5, // cell (1, 1)
        ]
    );
    // Every index points into the 3 x 3 vertex grid.
    assert!(ind.iter().all(|&i| i < 9));
}

#[test]
fn sphere_indices_with_no_divisions_are_empty() {
    assert_eq!(sphere_indices(0, 4), Vec::<u32>::new());
    assert_eq!(sphere_indices(4, 0), Vec::<u32>::new());
}

#[test]
fn cube_indices_walk_the_six_faces() {
    let ind = cube_indices();
    assert_eq!(
        ind,
        vec![
            0, 1, 2, 0, 2, 3, //
            4, 5, 6, 4, 6, 7, //
            8, 9, 10, 8, 10, 11, //
            12, 13, 14, 12, 14, 15, //
            16, 17, 18, 16, 18, 19, //
            20, 21, 22, 20, 22, 23,
        ]
    );
    assert!(ind.iter().all(|&i| i < 24));
}

#[test]
fn gather_vertices_copies_whole_vertices_in_index_order() {
    let indices: Vec<u32> = vec![2, 0];
    let vertices: Vec<u32> = vec![10, 11, 20, 21, 30, 31];
    let flat = gather_vertices(&indices, &vertices, 2);
    assert_eq!(flat, vec![30, 31, 10, 11]);
}

#[test]
fn gather_vertices_on_float_data() {
    let indices: Vec<u32> = vec![1, 1, 0];
    let vertices: Vec<f32> = vec![0.0, 0.5, 1.0, 1.5, 2.0, 2.5];
    let flat = gather_vertices(&indices, &vertices, 3);
    assert_eq!(flat, vec![1.5, 2.0, 2.5, 1.5, 2.0, 2.5, 0.0, 0.5, 1.0]);
}

#[test]
fn gather_vertices_expands_a_sphere_cell() {
    // One cell's indices over a 2 x 2 vertex grid with one scalar per vertex.
    let indices = sphere_indices(1, 1);
    let vertices: Vec<u32> = vec![100, 101, 102, 103];
    let flat = gather_vertices(&indices, &vertices, 1);
    assert_eq!(flat, vec![100, 102, 101, 102, 103, 101]);
}
