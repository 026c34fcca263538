use sinewaves::layout::{
    boundary_vertex_layout, global_uniform_size, packed_attributes, packed_record_size,
    wave_instance_layout, wave_record_fields, wave_record_size, AttributeFormat, StepMode,
    VertexAttr,
};

fn at(format: AttributeFormat, shader_location: u32, offset: u64) -> VertexAttr {
    VertexAttr { format, shader_location, offset }
}

#[test]
fn format_sizes() {
    assert_eq!(AttributeFormat::Float32.size(), 4);
    assert_eq!(AttributeFormat::Float32x2.size(), 8);
}

#[test]
fn packed_attributes_empty() {
    assert!(packed_attributes(&Vec::new(), 3).is_empty());
    assert_eq!(packed_record_size(&Vec::new()), 0);
}

#[test]
fn packed_attributes_offsets_and_locations() {
    let formats = vec![
        AttributeFormat::Float32,
        AttributeFormat::Float32x2,
        AttributeFormat::Float32,
    ];
    let attrs = packed_attributes(&formats, 5);
    assert_eq!(
        attrs,
        vec![
            at(AttributeFormat::Float32, 5, 0),
            at(AttributeFormat::Float32x2, 6, 4),
            at(AttributeFormat::Float32, 7, 12),
        ]
    );
    assert_eq!(packed_record_size(&formats), 16);
}

#[test]
fn packed_attributes_last_location() {
    let attrs = packed_attributes(&vec![AttributeFormat::Float32x2], u32::MAX);
    assert_eq!(attrs, vec![at(AttributeFormat::Float32x2, u32::MAX, 0)]);
}

#[test]
fn wave_instance_layout_values() {
    let layout = wave_instance_layout();
    assert_eq!(layout.stride, 32);
    assert_eq!(layout.step_mode, StepMode::Instance);
    assert_eq!(
        layout.attributes,
        vec![
            at(AttributeFormat::Float32x2, 1, 0),
            at(AttributeFormat::Float32, 2, 8),
            at(AttributeFormat::Float32, 3, 12),
            at(AttributeFormat::Float32, 4, 16),
            at(AttributeFormat::Float32, 5, 20),
            at(AttributeFormat::Float32, 6, 24),
        ]
    );
}

#[test]
fn wave_instance_attributes_fit_the_stride() {
    let layout = wave_instance_layout();
    for pair in layout.attributes.windows(2) {
        assert!(pair[0].offset + pair[0].format.size() <= pair[1].offset);
    }
    let last = layout.attributes.last().unwrap();
    assert!(last.offset + last.format.size() <= layout.stride);
}

#[test]
fn wave_record_matches_its_float_fields() {
    assert_eq!(wave_record_fields().len(), 7);
    assert_eq!(wave_record_size(), 7 * std::mem::size_of::<f32>() as u64 + 4);
    assert_eq!(wave_record_size(), std::mem::size_of::<[f32; 8]>() as u64);
}

#[test]
fn global_uniform_size_value() {
    assert_eq!(global_uniform_size(), 16);
    assert_eq!(global_uniform_size(), std::mem::size_of::<[f32; 4]>() as u64);
}

#[test]
fn boundary_vertex_layout_values() {
    let layout = boundary_vertex_layout();
    assert_eq!(layout.stride, 8);
    assert_eq!(layout.step_mode, StepMode::Vertex);
    assert_eq!(layout.attributes, vec![at(AttributeFormat::Float32x2, 0, 0)]);
}
