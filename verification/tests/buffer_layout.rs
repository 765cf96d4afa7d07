use villkiss::buffer::{
    BaseBuffer, Buffer, BufferCopy, BufferView, BufferViewDesc, ByteRange, CPUBuffer, GPUBuffer,
    StagingBuffer, UploadStep,
};
use villkiss::bufferpool::{BufferPool, STAGING_BUF_SIZE};
use villkiss::flags::{
    contains, union_all, BUFFER_INDEX, BUFFER_TRANSFER_DST, BUFFER_TRANSFER_SRC, BUFFER_UNIFORM,
    BUFFER_VERTEX, MEMORY_COHERENT, MEMORY_CPU_VISIBLE, MEMORY_DEVICE_LOCAL,
};
use villkiss::hal::AllocatorConfig;

#[test]
fn create_desc_has_no_offset() {
    let desc = BufferViewDesc::create_desc(12, BUFFER_VERTEX, 5);
    assert_eq!(desc, BufferViewDesc { type_size: 12, usage: BUFFER_VERTEX, len: 5, offset: 0 });
}

#[test]
fn union_all_ors_every_set() {
    assert_eq!(union_all(0x2, &[0x10, 0x40]), 0x52);
    assert_eq!(union_all(0x2, &[]), 0x2);
}

#[test]
fn contains_needs_every_bit() {
    assert!(contains(0x52, 0x10));
    assert!(contains(0x52, 0x12));
    assert!(!contains(0x52, 0x11));
    assert!(contains(0x52, 0));
}

#[test]
fn create_descs_without_uniforms_does_not_pad() {
    let descs = [
        BufferViewDesc::create_desc(12, BUFFER_VERTEX, 5),
        BufferViewDesc::create_desc(2, BUFFER_INDEX, 7),
    ];
    let (sizes, base) = BaseBuffer::create_descs(&descs, 0, MEMORY_DEVICE_LOCAL, 256).unwrap();
    assert_eq!(sizes, vec![60, 14]);
    assert_eq!(
        base,
        BaseBuffer { usage: BUFFER_VERTEX | BUFFER_INDEX, props: MEMORY_DEVICE_LOCAL, size_in_bytes: 74 }
    );
}

#[test]
fn create_descs_pads_to_uniform_alignment() {
    let descs = [
        BufferViewDesc::create_desc(12, BUFFER_VERTEX, 5),
        BufferViewDesc::create_desc(64, BUFFER_UNIFORM, 4),
        BufferViewDesc::create_desc(2, BUFFER_INDEX, 7),
    ];
    let (sizes, base) =
        BaseBuffer::create_descs(&descs, BUFFER_TRANSFER_DST, MEMORY_DEVICE_LOCAL, 256).unwrap();
    assert_eq!(sizes, vec![256, 256, 256]);
    assert_eq!(base.size_in_bytes, 768);
    assert_eq!(base.usage, BUFFER_VERTEX | BUFFER_UNIFORM | BUFFER_INDEX | BUFFER_TRANSFER_DST);
}

#[test]
fn create_descs_uniform_in_extra_usage_pads_too() {
    let descs = [BufferViewDesc::create_desc(3, BUFFER_VERTEX, 3)];
    let (sizes, base) = BaseBuffer::create_descs(&descs, BUFFER_UNIFORM, 0, 8).unwrap();
    assert_eq!(sizes, vec![16]);
    assert_eq!(base.size_in_bytes, 16);
}

#[test]
fn create_descs_without_uniforms_ignores_the_alignment() {
    let descs = [BufferViewDesc::create_desc(3, BUFFER_VERTEX, 3)];
    let (sizes, base) = BaseBuffer::create_descs(&descs, 0, 0, 0).unwrap();
    assert_eq!(sizes, vec![9]);
    assert_eq!(base.size_in_bytes, 9);
}

#[test]
fn create_descs_of_nothing_is_empty() {
    let (sizes, base) = BaseBuffer::create_descs(&[], BUFFER_TRANSFER_SRC, 7, 64).unwrap();
    assert!(sizes.is_empty());
    assert_eq!(base, BaseBuffer { usage: BUFFER_TRANSFER_SRC, props: 7, size_in_bytes: 0 });
}

#[test]
fn create_descs_rejects_sizes_beyond_u64() {
    let product = [BufferViewDesc::create_desc(u64::MAX, BUFFER_VERTEX, 2)];
    assert!(BaseBuffer::create_descs(&product, 0, 0, 1).is_none());
    let padding = [BufferViewDesc::create_desc(u64::MAX, BUFFER_UNIFORM, 1)];
    assert!(BaseBuffer::create_descs(&padding, 0, 0, 256).is_none());
    let sum = [
        BufferViewDesc::create_desc(u64::MAX, BUFFER_VERTEX, 1),
        BufferViewDesc::create_desc(1, BUFFER_VERTEX, 1),
    ];
    assert!(BaseBuffer::create_descs(&sum, 0, 0, 1).is_none());
    let exact = [
        BufferViewDesc::create_desc(u64::MAX - 1, BUFFER_VERTEX, 1),
        BufferViewDesc::create_desc(1, BUFFER_VERTEX, 1),
    ];
    assert_eq!(BaseBuffer::create_descs(&exact, 0, 0, 1).unwrap().1.size_in_bytes, u64::MAX);
}

#[test]
fn fold_descs_places_views_behind_each_other() {
    let descs = [
        BufferViewDesc::create_desc(12, BUFFER_VERTEX, 5),
        BufferViewDesc::create_desc(64, BUFFER_UNIFORM, 4),
        BufferViewDesc::create_desc(2, BUFFER_INDEX, 7),
    ];
    let views = BufferView::fold_descs(&descs, &vec![256, 256, 256]);
    assert_eq!(views.len(), 3);
    assert_eq!(views[0].desc.offset, 0);
    assert_eq!(views[1].desc.offset, 256);
    assert_eq!(views[2].desc.offset, 512);
    assert_eq!(views[1].desc.type_size, 64);
    assert_eq!(views[1].desc.len, 4);
    assert_eq!(views[1].desc.usage, BUFFER_UNIFORM);
}

#[test]
fn fold_descs_stops_at_the_shorter_list() {
    let descs = [
        BufferViewDesc::create_desc(4, BUFFER_VERTEX, 1),
        BufferViewDesc::create_desc(4, BUFFER_VERTEX, 1),
    ];
    assert_eq!(BufferView::fold_descs(&descs, &vec![4]).len(), 1);
    assert_eq!(BufferView::fold_descs(&descs[..1], &vec![4, 4, 4]).len(), 1);
    assert!(BufferView::fold_descs(&descs, &vec![]).is_empty());
}

#[test]
fn cpu_buffer_is_host_visible() {
    let descs = [
        BufferViewDesc::create_desc(16, BUFFER_UNIFORM, 3),
        BufferViewDesc::create_desc(4, BUFFER_VERTEX, 3),
    ];
    let (buffer, views) = CPUBuffer::create(&descs, 64).unwrap();
    assert_eq!(buffer.0.props, MEMORY_COHERENT | MEMORY_CPU_VISIBLE);
    assert_eq!(buffer.0.usage, BUFFER_UNIFORM | BUFFER_VERTEX);
    assert_eq!(buffer.0.size_in_bytes, 128);
    assert_eq!(views.len(), 2);
    assert_eq!(views[0].offset(), 0);
    assert_eq!(views[1].offset(), 64);
    assert_eq!(views[0].size(), 48);
    assert_eq!(views[1].size(), 12);
}

#[test]
fn gpu_buffer_is_a_transfer_target_in_device_memory() {
    let descs = [BufferViewDesc::create_desc(4, BUFFER_INDEX, 6)];
    let (buffer, views) = GPUBuffer::create(&descs, 256).unwrap();
    assert_eq!(buffer.0.props, MEMORY_DEVICE_LOCAL);
    assert_eq!(buffer.0.usage, BUFFER_INDEX | BUFFER_TRANSFER_DST);
    assert_eq!(buffer.0.size_in_bytes, 24);
    assert_eq!(views.len(), 1);
    assert_eq!(*views[0].desc(), BufferViewDesc { type_size: 4, usage: BUFFER_INDEX, len: 6, offset: 0 });
}

#[test]
fn views_are_aligned_and_do_not_overlap() {
    let descs = [
        BufferViewDesc::create_desc(12, BUFFER_VERTEX, 5),
        BufferViewDesc::create_desc(100, BUFFER_UNIFORM, 3),
        BufferViewDesc::create_desc(2, BUFFER_INDEX, 129),
    ];
    let (buffer, views) = GPUBuffer::create(&descs, 256).unwrap();
    let mut end = 0;
    for view in &views {
        assert_eq!(view.offset() % 256, 0);
        assert!(view.offset() >= end);
        end = view.offset() + view.size();
    }
    assert!(end <= buffer.0.size_in_bytes);
    assert_eq!(buffer.0.size_in_bytes, 256 + 512 + 512);
}

#[test]
fn buffers_beyond_u64_are_not_created() {
    let descs = [BufferViewDesc::create_desc(u64::MAX, BUFFER_VERTEX, 2)];
    assert!(CPUBuffer::create(&descs, 1).is_none());
    assert!(GPUBuffer::create(&descs, 1).is_none());
}

#[test]
fn descriptor_range_scales_by_element_size() {
    let view = BufferView {
        desc: BufferViewDesc { type_size: 16, usage: BUFFER_UNIFORM, len: 10, offset: 256 },
    };
    assert_eq!(view.descriptor_range(2..5), ByteRange { start: 288, end: 336 });
    assert_eq!(view.descriptor_range(0..0), ByteRange { start: 256, end: 256 });
    assert_eq!(view.descriptor_range(10..10), ByteRange { start: 416, end: 416 });
}

#[test]
fn descriptor_covers_the_whole_view() {
    let view = BufferView {
        desc: BufferViewDesc { type_size: 16, usage: BUFFER_UNIFORM, len: 10, offset: 256 },
    };
    assert_eq!(view.descriptor(), ByteRange { start: 256, end: 416 });
    assert_eq!(view.descriptor_to_end(0), ByteRange { start: 256, end: 416 });
    assert_eq!(view.descriptor_to_end(7), ByteRange { start: 256, end: 416 });
}

#[test]
fn upload_maps_behind_block_view_and_offset() {
    let view = BufferView {
        desc: BufferViewDesc { type_size: 8, usage: BUFFER_VERTEX, len: 10, offset: 64 },
    };
    assert_eq!(view.upload(16, 3, 4096), ByteRange { start: 4176, end: 4200 });
    assert_eq!(view.upload(0, 0, 0), ByteRange { start: 64, end: 64 });
}

#[test]
fn staged_upload_copies_from_the_start_of_staging() {
    let view = BufferView {
        desc: BufferViewDesc { type_size: 8, usage: BUFFER_VERTEX, len: 10, offset: 64 },
    };
    let staging = StagingBuffer::create(1024);
    assert_eq!(
        view.staged_upload(16, 3, &staging, 4096),
        vec![
            UploadStep::WaitForFence,
            UploadStep::ResetFence,
            UploadStep::Write(ByteRange { start: 4096, end: 4120 }),
            UploadStep::Submit(BufferCopy { src: 0, dst: 80, size: 24 }),
        ]
    );
}

#[test]
fn staging_buffer_is_a_host_visible_transfer_source() {
    let staging = StagingBuffer::create(1024);
    assert_eq!(
        staging.base,
        BaseBuffer {
            usage: BUFFER_TRANSFER_SRC,
            props: MEMORY_COHERENT | MEMORY_CPU_VISIBLE,
            size_in_bytes: 1024
        }
    );
}

#[test]
fn staging_upload_maps_from_block_start() {
    let staging = StagingBuffer::create(1024);
    assert_eq!(
        staging.upload(4, 100, 512),
        vec![
            UploadStep::WaitForFence,
            UploadStep::ResetFence,
            UploadStep::Write(ByteRange { start: 512, end: 912 }),
        ]
    );
    assert_eq!(staging.upload(4, 256, 0)[2], UploadStep::Write(ByteRange { start: 0, end: 1024 }));
}

#[test]
fn staging_holds_up_to_its_size() {
    let staging = StagingBuffer::create(1024);
    assert!(staging.holds(4, 256));
    assert!(!staging.holds(4, 257));
    assert!(staging.holds(0, usize::MAX));
    assert!(!staging.holds(usize::MAX, usize::MAX));
}

#[test]
fn buffer_pool_has_the_usual_allocator_and_staging_size() {
    let pool = BufferPool::create();
    assert_eq!(STAGING_BUF_SIZE, 1 << 26);
    assert_eq!(pool.staging_buf.base.size_in_bytes, 67108864);
    assert_eq!(pool.staging_buf.base.usage, BUFFER_TRANSFER_SRC);
    assert_eq!(
        pool.allocator,
        AllocatorConfig {
            arena_size: 4096,
            chunks_per_block: 8,
            min_chunk_size: 64,
            max_chunk_size: 134217728
        }
    );
}

#[test]
fn buffer_data_size_is_elements_times_element_size() {
    assert_eq!(BufferPool::create_buffer_data(12, 100), 1200);
    assert_eq!(BufferPool::create_buffer_data(12, 0), 0);
}
