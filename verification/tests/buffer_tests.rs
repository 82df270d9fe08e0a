use typed_gpu::buffer::{Buffer1d, BufferInfo1d, ByteSlice};
use typed_gpu::layout::{BindGroupLayoutEntry, BindingType, BufferBindingType, ShaderStages};
use typed_gpu::region::{Bound, BufferUsages, BufferWrite};
use typed_gpu::resource::{BindGroupEntry, BindingResource};
use typed_gpu::vertex::{VertexAttribute, VertexFormat, VertexStepMode};

#[test]
fn buffer_slot_holds_the_least_number_of_elements() {
    let info = BufferInfo1d::<[u8; 4]>::new(1, ShaderStages::compute());
    assert_eq!(
        info.layout_entry(0, BufferBindingType::Storage { read_only: false }),
        BindGroupLayoutEntry {
            binding: 0,
            visibility: ShaderStages { vertex: false, fragment: false, compute: true },
            ty: BindingType::Buffer {
                ty: BufferBindingType::Storage { read_only: false },
                has_dynamic_offset: false,
                min_binding_size: Some(4),
            },
            count: None,
        }
    );
    let three = BufferInfo1d::<[f32; 2]>::new(3, ShaderStages::vertex());
    let entry = three.layout_entry(5, BufferBindingType::Uniform);
    assert_eq!(entry.binding, 5);
    assert_eq!(
        entry.ty,
        BindingType::Buffer {
            ty: BufferBindingType::Uniform,
            has_dynamic_offset: false,
            min_binding_size: Some(24),
        }
    );
}

#[test]
fn buffer_slot_of_no_elements_asks_for_no_least_size() {
    let none = BufferInfo1d::<[f32; 2]>::new(0, ShaderStages::vertex());
    assert_eq!(
        none.layout_entry(0, BufferBindingType::Uniform).ty,
        BindingType::Buffer {
            ty: BufferBindingType::Uniform,
            has_dynamic_offset: false,
            min_binding_size: None,
        }
    );
    let unit = BufferInfo1d::<()>::new(9, ShaderStages::vertex());
    assert_eq!(
        unit.layout_entry(0, BufferBindingType::Uniform).ty,
        BindingType::Buffer {
            ty: BufferBindingType::Uniform,
            has_dynamic_offset: false,
            min_binding_size: None,
        }
    );
}

#[test]
fn vertex_stream_strides_by_one_element() {
    let info = BufferInfo1d::<[f32; 2]>::new(3, ShaderStages::vertex());
    let attributes =
        vec![VertexAttribute { format: VertexFormat::Float32x2, offset: 0, shader_location: 0 }];
    let layout = info.layout_vertex(attributes.clone(), VertexStepMode::Vertex);
    assert_eq!(layout.array_stride, 8);
    assert_eq!(layout.step_mode, VertexStepMode::Vertex);
    assert_eq!(layout.attributes, attributes);
}

#[test]
fn buffer_is_allocated_for_every_role_but_indices() {
    let info = BufferInfo1d::<[u8; 4]>::new(1, ShaderStages::compute());
    let d = info.create_buffer(&[[128u8; 4]; 512]);
    assert_eq!(d.size, 2048);
    assert_eq!(
        d.usage,
        BufferUsages {
            copy_src: true,
            copy_dst: true,
            index: false,
            vertex: true,
            uniform: true,
            storage: true,
        }
    );
    assert_eq!(info.create_buffer(&[]).size, 0);
}

#[test]
fn buffer_knows_its_name_and_its_length() {
    let info = BufferInfo1d::<[f32; 2]>::new(3, ShaderStages::vertex());
    let buffer = info.create(12, &[[0.0f32, 0.0], [0.0, 1.0], [1.0, 0.0]]);
    assert_eq!(buffer.id(), 12);
    assert_eq!(buffer.len(), 3);
    assert_eq!(buffer.descriptor(), info.create_buffer(&[[0.0f32, 0.0]; 3]));
    assert_eq!(buffer.descriptor().size, 24);
}

#[test]
fn buffer_write_is_counted_in_elements() {
    let info = BufferInfo1d::<[u8; 4]>::new(1, ShaderStages::compute());
    let buffer = info.create(2, &[[0u8; 4]; 8]);
    assert!(buffer.can_write(0, 8));
    assert!(buffer.can_write(8, 0));
    assert!(!buffer.can_write(1, 8));
    assert!(!buffer.can_write(9, 0));
    assert_eq!(buffer.write(0, &[[128u8; 4]; 8]), BufferWrite { buffer: 2, offset: 0, size: 32 });
    assert_eq!(buffer.write(3, &[[1u8; 4]; 2]), BufferWrite { buffer: 2, offset: 12, size: 8 });
}

#[test]
fn buffer_entry_binds_the_elements_of_a_range() {
    let info = BufferInfo1d::<[u8; 4]>::new(1, ShaderStages::compute());
    let buffer = info.create(2, &[[0u8; 4]; 8]);
    assert_eq!(
        buffer.bind_group_entry(0, Bound::Unbounded, Bound::Unbounded),
        BindGroupEntry {
            binding: 0,
            resource: BindingResource::Buffer { buffer: 2, offset: 0, size: Some(32) },
        }
    );
    assert_eq!(
        buffer.bind_group_entry(4, Bound::Included(2), Bound::Excluded(5)),
        BindGroupEntry {
            binding: 4,
            resource: BindingResource::Buffer { buffer: 2, offset: 8, size: Some(12) },
        }
    );
    assert_eq!(
        buffer.bind_group_entry(0, Bound::Excluded(2), Bound::Included(100)).resource,
        BindingResource::Buffer { buffer: 2, offset: 12, size: Some(20) }
    );
}

#[test]
fn buffer_entry_of_no_element_still_binds_a_byte() {
    let info = BufferInfo1d::<[u8; 4]>::new(1, ShaderStages::compute());
    let buffer = info.create(2, &[[0u8; 4]; 8]);
    assert_eq!(
        buffer.bind_group_entry(0, Bound::Included(3), Bound::Excluded(3)).resource,
        BindingResource::Buffer { buffer: 2, offset: 12, size: Some(1) }
    );
    assert_eq!(
        buffer.bind_group_entry(0, Bound::Included(6), Bound::Excluded(2)).resource,
        BindingResource::Buffer { buffer: 2, offset: 24, size: Some(1) }
    );
    assert_eq!(
        buffer.bind_group_entry(0, Bound::Included(8), Bound::Unbounded).resource,
        BindingResource::Buffer { buffer: 2, offset: 32, size: Some(1) }
    );
    let empty = info.create(3, &[]);
    assert_eq!(
        empty.bind_group_entry(0, Bound::Unbounded, Bound::Unbounded).resource,
        BindingResource::Buffer { buffer: 3, offset: 0, size: Some(1) }
    );
    let units = BufferInfo1d::<()>::new(1, ShaderStages::compute()).create(4, &[(), ()]);
    assert_eq!(
        units.bind_group_entry(0, Bound::Unbounded, Bound::Unbounded).resource,
        BindingResource::Buffer { buffer: 4, offset: 0, size: Some(1) }
    );
}

#[test]
fn buffer_stream_is_a_range_of_bytes() {
    let info = BufferInfo1d::<[f32; 2]>::new(3, ShaderStages::vertex());
    let buffer = info.create(12, &[[0.0f32, 0.0]; 6]);
    assert_eq!(
        buffer.slice(Bound::Unbounded, Bound::Unbounded),
        ByteSlice { buffer: 12, offset: 0, size: None }
    );
    assert_eq!(
        buffer.slice(Bound::Included(2), Bound::Excluded(5)),
        ByteSlice { buffer: 12, offset: 2, size: Some(3) }
    );
    assert_eq!(
        buffer.slice(Bound::Included(21), Bound::Unbounded),
        ByteSlice { buffer: 12, offset: 21, size: None }
    );
    assert_eq!(
        buffer.slice(Bound::Unbounded, Bound::Excluded(21)),
        ByteSlice { buffer: 12, offset: 0, size: Some(21) }
    );
    assert_eq!(
        buffer.slice(Bound::Excluded(1), Bound::Included(4)),
        ByteSlice { buffer: 12, offset: 2, size: Some(3) }
    );
}

#[test]
fn declaration_keeps_what_it_was_given() {
    let info = BufferInfo1d::<[u8; 4]>::new(7, ShaderStages::compute());
    assert_eq!(info.dims_min(), 7);
    assert_eq!(info.visibility(), ShaderStages { vertex: false, fragment: false, compute: true });
}

#[test]
fn range_can_be_bound_where_its_first_byte_can_be_counted() {
    let info = BufferInfo1d::<[u8; 4]>::new(1, ShaderStages::compute());
    let buffer = info.create(2, &[[0u8; 4]; 8]);
    assert!(buffer.can_bind(Bound::Unbounded));
    assert!(buffer.can_bind(Bound::Included(100)));
    assert!(buffer.can_bind(Bound::Included(u64::MAX / 4)));
    assert!(!buffer.can_bind(Bound::Included(u64::MAX / 4 + 1)));
    assert!(buffer.can_bind(Bound::Excluded(u64::MAX / 4 - 1)));
    assert!(!buffer.can_bind(Bound::Excluded(u64::MAX / 4)));
    assert!(!buffer.can_bind(Bound::Excluded(u64::MAX)));
    let units = BufferInfo1d::<()>::new(1, ShaderStages::compute()).create(3, &[(), ()]);
    assert!(units.can_bind(Bound::Included(u64::MAX)));
    assert!(!units.can_bind(Bound::Excluded(u64::MAX)));
}

#[test]
fn bytes_can_be_sliced_where_there_is_one_at_least() {
    assert!(Buffer1d::<u16>::can_slice(Bound::Unbounded, Bound::Unbounded));
    assert!(Buffer1d::<u16>::can_slice(Bound::Included(3), Bound::Unbounded));
    assert!(Buffer1d::<u16>::can_slice(Bound::Included(3), Bound::Included(3)));
    assert!(Buffer1d::<u16>::can_slice(Bound::Included(3), Bound::Excluded(4)));
    assert!(!Buffer1d::<u16>::can_slice(Bound::Included(3), Bound::Excluded(3)));
    assert!(!Buffer1d::<u16>::can_slice(Bound::Unbounded, Bound::Excluded(0)));
    assert!(!Buffer1d::<u16>::can_slice(Bound::Excluded(3), Bound::Included(3)));
    assert!(!Buffer1d::<u16>::can_slice(Bound::Included(5), Bound::Included(4)));
    assert!(!Buffer1d::<u16>::can_slice(Bound::Unbounded, Bound::Included(u64::MAX)));
    assert!(!Buffer1d::<u16>::can_slice(Bound::Excluded(u64::MAX), Bound::Unbounded));
}
