//! Buffers: how views are packed into one allocation, and which bytes an
//! upload touches.

use crate::flags::{
    contains, spec_contains, union_of, BUFFER_TRANSFER_DST, BUFFER_TRANSFER_SRC, BUFFER_UNIFORM,
    MEMORY_COHERENT, MEMORY_CPU_VISIBLE, MEMORY_DEVICE_LOCAL,
};
use core::ops::Range;
use vstd::arithmetic::div_mod::{
    lemma_fundamental_div_mod, lemma_mod_multiples_basic, lemma_mod_pos_bound, lemma_small_mod,
};
use vstd::prelude::*;

verus! {

/// A run of elements of one type inside a buffer.
#[derive(Clone, Copy, Debug, PartialEq, Eq, Structural)]
pub struct BufferViewDesc {
    /// The size of one element in bytes.
    pub type_size: u64,
    /// What the view is used for.
    pub usage: u32,
    /// The number of elements.
    pub len: u64,
    /// Where the view starts in its buffer, in bytes.
    pub offset: u64,
}

/// A half-open range of bytes.
#[derive(Clone, Copy, Debug, PartialEq, Eq, Structural)]
pub struct ByteRange {
    pub start: u64,
    pub end: u64,
}

/// A copy of `size` bytes from one buffer to another.
#[derive(Clone, Copy, Debug, PartialEq, Eq, Structural)]
pub struct BufferCopy {
    pub src: u64,
    pub dst: u64,
    pub size: u64,
}

/// One step of an upload through a staging buffer, whose fence is signalled
/// when the transfer out of it is over.
#[derive(Clone, Copy, Debug, PartialEq, Eq, Structural)]
pub enum UploadStep {
    /// Wait until the fence is signalled.
    WaitForFence,
    /// Reset the fence.
    ResetFence,
    /// Write the data to these bytes of memory.
    Write(ByteRange),
    /// Submit this copy out of the staging buffer, signalling the fence.
    Submit(BufferCopy),
}

/// What a buffer is created with.
#[derive(Clone, Copy, Debug, PartialEq, Eq, Structural)]
pub struct BaseBuffer {
    pub usage: u32,
    /// The properties asked of its memory.
    pub props: u16,
    pub size_in_bytes: u64,
}

/// A buffer in memory that the host can map and write.
#[derive(Clone, Copy, Debug, PartialEq, Eq, Structural)]
pub struct CPUBuffer(pub BaseBuffer);

/// A buffer in device memory, filled through a staging buffer.
#[derive(Clone, Copy, Debug, PartialEq, Eq, Structural)]
pub struct GPUBuffer(pub BaseBuffer);

/// A host-visible buffer that uploads to device memory pass through.
#[derive(Clone, Copy, Debug, PartialEq, Eq, Structural)]
pub struct StagingBuffer {
    pub base: BaseBuffer,
}

/// One view of a buffer, placed at its offset.
#[derive(Clone, Copy, Debug, PartialEq, Eq, Structural)]
pub struct BufferView {
    pub desc: BufferViewDesc,
}

/// `size` rounded up to a multiple of `align`.
pub open spec fn padded(size: int, align: int) -> int {
    size + (align - size % align) % align
}

/// The bytes a view takes in a buffer whose views are aligned to `align`.
pub open spec fn view_size(desc: BufferViewDesc, align: int) -> int {
    padded(desc.len * desc.type_size, align)
}

/// The bytes taken by the first `n` views.
pub open spec fn sizes_sum(descs: Seq<BufferViewDesc>, align: int, n: int) -> int
    decreases n,
{
    if n <= 0 {
        0
    } else {
        sizes_sum(descs, align, n - 1) + view_size(descs[n - 1], align)
    }
}

/// The sum of the first `n` of `sizes`.
pub open spec fn offset_at(sizes: Seq<u64>, n: int) -> int
    decreases n,
{
    if n <= 0 {
        0
    } else {
        offset_at(sizes, n - 1) + sizes[n - 1]
    }
}

/// The usage of each view.
pub open spec fn usages(descs: Seq<BufferViewDesc>) -> Seq<u32> {
    Seq::new(descs.len(), |i: int| descs[i].usage)
}

/// The usage of a buffer: that of all its views, and `extra`.
pub open spec fn combined_usage(extra: u32, descs: Seq<BufferViewDesc>) -> u32 {
    union_of(extra, usages(descs), descs.len() as int)
}

/// The alignment of the views of a buffer: the device's alignment for
/// uniform blocks where the buffer holds any, else none.
pub open spec fn alignment(usage: u32, uniform_align: u64) -> u64 {
    if spec_contains(usage, BUFFER_UNIFORM) {
        uniform_align
    } else {
        1
    }
}

/// The size of each view, as `create_descs` returns them.
pub open spec fn view_sizes(descs: Seq<BufferViewDesc>, align: int) -> Seq<u64> {
    Seq::new(descs.len(), |i: int| view_size(descs[i], align) as u64)
}

/// The view of the `index`-th description, placed behind the views before it.
pub open spec fn view_at(descs: Seq<BufferViewDesc>, sizes: Seq<u64>, index: int) -> BufferView {
    BufferView {
        desc: BufferViewDesc {
            type_size: descs[index].type_size,
            usage: descs[index].usage,
            len: descs[index].len,
            offset: offset_at(sizes, index) as u64,
        },
    }
}

/// The views of a buffer: as many as there are both descriptions and sizes.
pub open spec fn views_of(descs: Seq<BufferViewDesc>, sizes: Seq<u64>) -> Seq<BufferView> {
    Seq::new(
        if descs.len() <= sizes.len() { descs.len() } else { sizes.len() },
        |index: int| view_at(descs, sizes, index),
    )
}

/// What `create_descs` returns for a buffer that fits.
pub open spec fn planned(descs: Seq<BufferViewDesc>, extra_usage: u32, props: u16, uniform_align: u64) -> (
    Seq<u64>,
    BaseBuffer,
) {
    let usage = combined_usage(extra_usage, descs);
    let align = alignment(usage, uniform_align) as int;
    (
        view_sizes(descs, align),
        BaseBuffer {
            usage,
            props,
            size_in_bytes: sizes_sum(descs, align, descs.len() as int) as u64,
        },
    )
}

/// Whether the views fit a buffer whose size is a `u64`.
pub open spec fn fits(descs: Seq<BufferViewDesc>, extra_usage: u32, uniform_align: u64) -> bool {
    sizes_sum(
        descs,
        alignment(combined_usage(extra_usage, descs), uniform_align) as int,
        descs.len() as int,
    ) <= u64::MAX
}

/// Padding adds less than the alignment.
pub proof fn lemma_padded_bounds(size: int, align: int)
    requires
        0 <= size,
        0 < align,
    ensures
        size <= padded(size, align) < size + align,
{
    lemma_mod_pos_bound(size, align);
    lemma_mod_pos_bound(align - size % align, align);
}

/// A padded size is a multiple of the alignment.
pub proof fn lemma_padded_aligned(size: int, align: int)
    requires
        0 <= size,
        0 < align,
    ensures
        padded(size, align) % align == 0,
{
    let r = size % align;
    let q = size / align;
    lemma_fundamental_div_mod(size, align);
    lemma_mod_pos_bound(size, align);
    if r == 0 {
        lemma_mod_multiples_basic(1, align);
        assert(padded(size, align) == size);
    } else {
        lemma_small_mod((align - r) as nat, align as nat);
        assert((align - r) % align == align - r);
        assert(padded(size, align) == align * q + align);
        assert(align * q + align == (q + 1) * align) by (nonlinear_arith);
        lemma_mod_multiples_basic(q + 1, align);
    }
}

/// The bytes of the first views never shrink as more views are counted.
pub proof fn lemma_sizes_sum_monotonic(descs: Seq<BufferViewDesc>, align: int, i: int, j: int)
    requires
        0 <= i <= j <= descs.len(),
        0 < align,
    ensures
        0 <= sizes_sum(descs, align, i) <= sizes_sum(descs, align, j),
    decreases j,
{
    if j > 0 {
        let d = descs[j - 1];
        assert(0 <= d.len * d.type_size) by (nonlinear_arith)
            requires
                0 <= d.len,
                0 <= d.type_size,
        ;
        lemma_padded_bounds(d.len * d.type_size, align);
        if i < j {
            lemma_sizes_sum_monotonic(descs, align, i, j - 1);
        } else {
            lemma_sizes_sum_monotonic(descs, align, i - 1, j - 1);
        }
    }
}

/// Every view of a buffer starts at a multiple of the alignment.
pub proof fn lemma_sizes_sum_aligned(descs: Seq<BufferViewDesc>, align: int, n: int)
    requires
        0 <= n <= descs.len(),
        0 < align,
    ensures
        sizes_sum(descs, align, n) % align == 0,
    decreases n,
{
    if n > 0 {
        let d = descs[n - 1];
        assert(0 <= d.len * d.type_size) by (nonlinear_arith)
            requires
                0 <= d.len,
                0 <= d.type_size,
        ;
        lemma_sizes_sum_aligned(descs, align, n - 1);
        lemma_sizes_sum_monotonic(descs, align, 0, n - 1);
        lemma_padded_aligned(d.len * d.type_size, align);
        let a = sizes_sum(descs, align, n - 1);
        let b = view_size(d, align);
        lemma_fundamental_div_mod(a, align);
        lemma_fundamental_div_mod(b, align);
        assert(a + b == (a / align + b / align) * align) by (nonlinear_arith)
            requires
                a == align * (a / align) + a % align,
                b == align * (b / align) + b % align,
                a % align == 0,
                b % align == 0,
        ;
        lemma_mod_multiples_basic(a / align + b / align, align);
    } else {
        lemma_small_mod(0, align as nat);
    }
}

/// The offsets of the views are the sums of the sizes before them.
pub proof fn lemma_offsets_are_sums(descs: Seq<BufferViewDesc>, align: int, n: int)
    requires
        0 <= n <= descs.len(),
        0 < align,
        sizes_sum(descs, align, descs.len() as int) <= u64::MAX,
    ensures
        offset_at(view_sizes(descs, align), n) == sizes_sum(descs, align, n),
    decreases n,
{
    if n > 0 {
        lemma_offsets_are_sums(descs, align, n - 1);
        lemma_sizes_sum_monotonic(descs, align, n - 1, n);
        lemma_sizes_sum_monotonic(descs, align, n, descs.len() as int);
        lemma_sizes_sum_monotonic(descs, align, 0, n - 1);
    }
}

/// The views of a buffer lie behind each other inside it: each starts at a
/// multiple of the alignment, holds its elements, and ends where the next
/// one starts or, for the last, where the buffer ends.
pub proof fn lemma_views_packed(
    descs: Seq<BufferViewDesc>,
    extra_usage: u32,
    props: u16,
    uniform_align: u64,
    index: int,
)
    requires
        0 < alignment(combined_usage(extra_usage, descs), uniform_align),
        0 <= index < descs.len(),
        fits(descs, extra_usage, uniform_align),
    ensures
        ({
            let (sizes, base) = planned(descs, extra_usage, props, uniform_align);
            let views = views_of(descs, sizes);
            let align = alignment(base.usage, uniform_align);
            &&& views.len() == descs.len()
            &&& views[index].desc.offset % align == 0
            &&& views[index].wf()
            &&& views[index].desc.offset + views[index].spec_size() <= views[index].desc.offset
                + sizes[index]
            &&& index + 1 < descs.len() ==> views[index].desc.offset + sizes[index] == views[index
                + 1].desc.offset
            &&& index + 1 == descs.len() ==> views[index].desc.offset + sizes[index]
                == base.size_in_bytes
        }),
{
    let (sizes, base) = planned(descs, extra_usage, props, uniform_align);
    let align = alignment(base.usage, uniform_align) as int;
    let n = descs.len() as int;
    let d = descs[index];
    assert(0 <= d.len * d.type_size) by (nonlinear_arith)
        requires
            0 <= d.len,
            0 <= d.type_size,
    ;
    assert(d.type_size * d.len == d.len * d.type_size) by (nonlinear_arith);
    lemma_padded_bounds(d.len * d.type_size, align);
    assert(sizes_sum(descs, align, index + 1) == sizes_sum(descs, align, index) + view_size(
        d,
        align,
    ));
    lemma_offsets_are_sums(descs, align, index);
    lemma_offsets_are_sums(descs, align, index + 1);
    lemma_sizes_sum_aligned(descs, align, index);
    lemma_sizes_sum_monotonic(descs, align, 0, index);
    lemma_sizes_sum_monotonic(descs, align, index, index + 1);
    lemma_sizes_sum_monotonic(descs, align, index + 1, n);
}

impl BufferViewDesc {
    /// Describes a view of `len` elements of `type_size` bytes each. It has
    /// no place in a buffer yet.
    pub fn create_desc(type_size: u64, usage: u32, len: u64) -> (desc: BufferViewDesc)
        ensures
            desc == (BufferViewDesc { type_size, usage, len, offset: 0 }),
    {
        BufferViewDesc { type_size, usage, len, offset: 0 }
    }
}

impl BaseBuffer {
    /// Sizes a buffer for `descs`. Its usage is that of all views and
    /// `extra_usage`. Where it holds uniform blocks, each view is padded to a
    /// multiple of `uniform_align`, the device's alignment for them, which
    /// must not be zero then; else `uniform_align` is not looked at. Returns
    /// the padded size of each view and the buffer to create, or nothing
    /// where the sizes do not fit a `u64`.
    pub fn create_descs(
        descs: &[BufferViewDesc],
        extra_usage: u32,
        props: u16,
        uniform_align: u64,
    ) -> (r: Option<(Vec<u64>, BaseBuffer)>)
        requires
            0 < alignment(combined_usage(extra_usage, descs@), uniform_align),
        ensures
            r.is_some() == fits(descs@, extra_usage, uniform_align),
            match r {
                Some((sizes, base)) => (sizes@, base) == planned(
                    descs@,
                    extra_usage,
                    props,
                    uniform_align,
                ),
                None => true,
            },
    {
        let mut usage: u32 = extra_usage;
        let mut i: usize = 0;
        while i < descs.len()
            invariant
                i <= descs@.len(),
                usage == union_of(extra_usage, usages(descs@), i as int),
            decreases descs@.len() - i,
        {
            usage = usage | descs[i].usage;
            i += 1;
        }
        let align: u64 = if contains(usage, BUFFER_UNIFORM) {
            uniform_align
        } else {
            1
        };
        let mut sizes: Vec<u64> = Vec::new();
        let mut total: u64 = 0;
        i = 0;
        while i < descs.len()
            invariant
                0 < align,
                align == alignment(combined_usage(extra_usage, descs@), uniform_align),
                usage == combined_usage(extra_usage, descs@),
                i <= descs@.len(),
                sizes@.len() == i,
                forall|k: int| 0 <= k < i ==> sizes@[k] == view_size(descs@[k], align as int),
                total == sizes_sum(descs@, align as int, i as int),
            decreases descs@.len() - i,
        {
            let desc = descs[i];
            proof {
                assert(0 <= desc.len * desc.type_size) by (nonlinear_arith)
                    requires
                        0 <= desc.len,
                        0 <= desc.type_size,
                ;
                lemma_padded_bounds(desc.len * desc.type_size, align as int);
                lemma_sizes_sum_monotonic(descs@, align as int, 0, i as int);
                lemma_sizes_sum_monotonic(descs@, align as int, i + 1, descs@.len() as int);
                assert(sizes_sum(descs@, align as int, i + 1) == sizes_sum(
                    descs@,
                    align as int,
                    i as int,
                ) + view_size(descs@[i as int], align as int));
            }
            let size = match desc.len.checked_mul(desc.type_size) {
                Some(size) => size,
                None => {
                    return None;
                },
            };
            let padding = (align - (size % align)) % align;
            let size = match size.checked_add(padding) {
                Some(size) => size,
                None => {
                    return None;
                },
            };
            total = match total.checked_add(size) {
                Some(total) => total,
                None => {
                    return None;
                },
            };
            sizes.push(size);
            i += 1;
        }
        assert(sizes@ =~= view_sizes(descs@, align as int));
        Some((sizes, BaseBuffer::create(usage, props, total)))
    }

    /// A buffer of `size_in_bytes` bytes with the given usage, in memory with
    /// the given properties.
    pub fn create(usage: u32, props: u16, size_in_bytes: u64) -> (base: BaseBuffer)
        ensures
            base == (BaseBuffer { usage, props, size_in_bytes }),
    {
        BaseBuffer { usage, props, size_in_bytes }
    }
}

impl BufferView {
    /// The bytes of the view's elements.
    pub open spec fn spec_size(self) -> int {
        self.desc.type_size * self.desc.len
    }

    /// Whether the end of the view is a `u64`.
    pub open spec fn wf(self) -> bool {
        self.desc.offset + self.spec_size() <= u64::MAX
    }

    /// The bytes of the elements `start..end` of the view, within its buffer.
    pub open spec fn byte_range(self, start: int, end: int) -> ByteRange {
        ByteRange {
            start: (self.desc.offset + start * self.desc.type_size) as u64,
            end: (self.desc.offset + end * self.desc.type_size) as u64,
        }
    }

    /// Places one view for each description behind the views before it,
    /// giving each the size in `sizes`. There are as many views as there are
    /// both descriptions and sizes.
    pub fn fold_descs(descs: &[BufferViewDesc], sizes: &Vec<u64>) -> (views: Vec<BufferView>)
        requires
            offset_at(
                sizes@,
                if descs@.len() <= sizes@.len() {
                    descs@.len() as int
                } else {
                    sizes@.len() as int
                },
            ) <= u64::MAX,
        ensures
            views@ == views_of(descs@, sizes@),
    {
        let count = if descs.len() <= sizes.len() {
            descs.len()
        } else {
            sizes.len()
        };
        let mut views: Vec<BufferView> = Vec::new();
        let mut base_offset: u64 = 0;
        let mut i: usize = 0;
        while i < count
            invariant
                i <= count,
                count <= descs@.len(),
                count <= sizes@.len(),
                offset_at(sizes@, count as int) <= u64::MAX,
                base_offset == offset_at(sizes@, i as int),
                views@.len() == i,
                forall|k: int| 0 <= k < i ==> views@[k] == view_at(descs@, sizes@, k),
            decreases count - i,
        {
            let mut desc = descs[i];
            desc.offset = base_offset;
            proof {
                BufferView::lemma_offset_at_monotonic(sizes@, i + 1, count as int);
            }
            base_offset += sizes[i];
            views.push(BufferView { desc });
            i += 1;
        }
        assert(views@ =~= views_of(descs@, sizes@));
        views
    }

    /// The sum of the first sizes never shrinks as more are counted.
    pub proof fn lemma_offset_at_monotonic(sizes: Seq<u64>, i: int, j: int)
        requires
            0 <= i <= j,
        ensures
            0 <= offset_at(sizes, i) <= offset_at(sizes, j),
        decreases j,
    {
        if j > 0 {
            if i < j {
                BufferView::lemma_offset_at_monotonic(sizes, i, j - 1);
            } else {
                BufferView::lemma_offset_at_monotonic(sizes, i - 1, j - 1);
            }
        }
    }

    /// The bytes of the whole view.
    pub fn descriptor(&self) -> (range: ByteRange)
        requires
            self.wf(),
            self.desc.len <= usize::MAX,
        ensures
            range == self.byte_range(0, self.desc.len as int),
    {
        self.descriptor_to_end(0)
    }

    /// The bytes of the whole view, whatever `start` is.
    pub fn descriptor_to_end(&self, start: usize) -> (range: ByteRange)
        requires
            self.wf(),
            self.desc.len <= usize::MAX,
        ensures
            range == self.byte_range(0, self.desc.len as int),
    {
        self.descriptor_range(0..self.desc.len as usize)
    }

    /// The bytes of the elements `range` of the view, within its buffer.
    pub fn descriptor_range(&self, range: Range<usize>) -> (bytes: ByteRange)
        requires
            self.wf(),
            range.start <= range.end,
            range.end <= self.desc.len,
        ensures
            bytes == self.byte_range(range.start as int, range.end as int),
    {
        let start: u64 = range.start as u64;
        let end: u64 = range.end as u64;
        proof {
            let size = self.desc.type_size;
            let len = self.desc.len;
            assert(0 <= start * size <= end * size <= size * len) by (nonlinear_arith)
                requires
                    0 <= start <= end <= len,
                    0 <= size,
            ;
        }
        let abs_beg = self.offset() + (start * self.desc().type_size);
        let abs_end = self.offset() + (end * self.desc().type_size);
        ByteRange { start: abs_beg, end: abs_end }
    }

    /// The bytes of the view's elements.
    pub fn size(&self) -> (size: u64)
        requires
            self.wf(),
        ensures
            size == self.spec_size(),
    {
        self.desc.type_size * self.desc.len
    }

    /// Where the view starts in its buffer.
    pub fn offset(&self) -> (offset: u64)
        ensures
            offset == self.desc.offset,
    {
        self.desc.offset
    }

    /// The description of the view.
    pub fn desc(&self) -> (desc: &BufferViewDesc)
        ensures
            *desc == self.desc,
    {
        &self.desc
    }

    /// The bytes of memory written when `data_len` elements are uploaded to
    /// the view of a host-visible buffer, starting `offset` bytes into the
    /// view. The buffer's memory starts at `block_start`.
    pub fn upload(&self, offset: u64, data_len: usize, block_start: u64) -> (mapped: ByteRange)
        requires
            data_len <= self.desc.len,
            offset + self.desc.offset + block_start + self.desc.type_size * data_len <= u64::MAX,
        ensures
            mapped.start == offset + self.desc.offset + block_start,
            mapped.end == mapped.start + self.desc.type_size * data_len,
    {
        proof {
            assert(0 <= self.desc.type_size * data_len) by (nonlinear_arith)
                requires
                    0 <= self.desc.type_size,
                    0 <= data_len,
            ;
        }
        let size_in_bytes = self.desc.type_size * (data_len as u64);
        let start = offset + self.offset() + block_start;
        ByteRange { start, end: start + size_in_bytes }
    }

    /// The steps that bring `data_len` elements through the staging buffer
    /// into the view of a device-local buffer, `offset` bytes into the view:
    /// the data is written to the start of the staging buffer once the
    /// transfer before it is over, and copied from there. The memory of the
    /// staging buffer starts at `block_start`. The elements must fit the view
    /// and the staging buffer.
    pub fn staged_upload(
        &self,
        offset: u64,
        data_len: usize,
        staging_buf: &StagingBuffer,
        block_start: u64,
    ) -> (steps: Vec<UploadStep>)
        requires
            data_len <= self.desc.len,
            data_len * self.desc.type_size <= staging_buf.base.size_in_bytes,
            block_start + data_len * self.desc.type_size <= u64::MAX,
            offset + self.desc.offset <= u64::MAX,
        ensures
            steps@ == seq![
                UploadStep::WaitForFence,
                UploadStep::ResetFence,
                UploadStep::Write(
                    ByteRange {
                        start: block_start,
                        end: (block_start + data_len * self.desc.type_size) as u64,
                    },
                ),
                UploadStep::Submit(
                    BufferCopy {
                        src: 0,
                        dst: (offset + self.desc.offset) as u64,
                        size: (data_len * self.desc.type_size) as u64,
                    },
                ),
            ],
    {
        proof {
            assert(0 <= data_len * self.desc.type_size) by (nonlinear_arith)
                requires
                    0 <= self.desc.type_size,
                    0 <= data_len,
            ;
        }
        let size = (data_len as u64) * self.desc.type_size;
        let copy = BufferCopy { src: 0, dst: offset + self.offset(), size };
        let mut steps: Vec<UploadStep> = Vec::new();
        steps.push(UploadStep::WaitForFence);
        steps.push(UploadStep::ResetFence);
        steps.push(UploadStep::Write(ByteRange { start: block_start, end: block_start + size }));
        steps.push(UploadStep::Submit(copy));
        assert(steps@ =~= seq![
            UploadStep::WaitForFence,
            UploadStep::ResetFence,
            UploadStep::Write(ByteRange { start: block_start, end: (block_start + size) as u64 }),
            UploadStep::Submit(copy),
        ]);
        steps
    }
}

/// A kind of buffer that is created whole, with all its views.
pub trait Buffer: Sized {
    /// The usage every buffer of this kind has, whatever its views.
    spec fn extra_usage() -> u32;

    /// The properties of the memory of a buffer of this kind.
    spec fn props() -> u16;

    /// What the buffer is created with.
    spec fn base(&self) -> BaseBuffer;

    /// A buffer for `descs`, and its views. Where the buffer holds uniform
    /// blocks, `uniform_align` is the device's alignment for them and must
    /// not be zero. Nothing is returned where the views do not fit a `u64`.
    fn create(descs: &[BufferViewDesc], uniform_align: u64) -> (r: Option<(Self, Vec<BufferView>)>)
        requires
            0 < alignment(combined_usage(Self::extra_usage(), descs@), uniform_align),
        ensures
            r.is_some() == fits(descs@, Self::extra_usage(), uniform_align),
            match r {
                Some((buffer, views)) => {
                    let (sizes, base) = planned(
                        descs@,
                        Self::extra_usage(),
                        Self::props(),
                        uniform_align,
                    );
                    buffer.base() == base && views@ == views_of(descs@, sizes)
                },
                None => true,
            },
    ;
}

/// A buffer in coherent, host-visible memory.
impl Buffer for CPUBuffer {
    open spec fn extra_usage() -> u32 {
        0
    }

    open spec fn props() -> u16 {
        MEMORY_COHERENT | MEMORY_CPU_VISIBLE
    }

    open spec fn base(&self) -> BaseBuffer {
        self.0
    }

    fn create(descs: &[BufferViewDesc], uniform_align: u64) -> (r: Option<(Self, Vec<BufferView>)>) {
        match BaseBuffer::create_descs(descs, 0, MEMORY_COHERENT | MEMORY_CPU_VISIBLE, uniform_align) {
            Some((sizes, base)) => {
                proof {
                    lemma_offsets_are_sums(
                        descs@,
                        alignment(base.usage, uniform_align) as int,
                        descs@.len() as int,
                    );
                }
                let views = BufferView::fold_descs(descs, &sizes);
                Some((CPUBuffer(base), views))
            },
            None => None,
        }
    }
}

/// A buffer in device memory that transfers can write.
impl Buffer for GPUBuffer {
    open spec fn extra_usage() -> u32 {
        BUFFER_TRANSFER_DST
    }

    open spec fn props() -> u16 {
        MEMORY_DEVICE_LOCAL
    }

    open spec fn base(&self) -> BaseBuffer {
        self.0
    }

    fn create(descs: &[BufferViewDesc], uniform_align: u64) -> (r: Option<(Self, Vec<BufferView>)>) {
        match BaseBuffer::create_descs(descs, BUFFER_TRANSFER_DST, MEMORY_DEVICE_LOCAL, uniform_align) {
            Some((sizes, base)) => {
                proof {
                    lemma_offsets_are_sums(
                        descs@,
                        alignment(base.usage, uniform_align) as int,
                        descs@.len() as int,
                    );
                }
                let views = BufferView::fold_descs(descs, &sizes);
                Some((GPUBuffer(base), views))
            },
            None => None,
        }
    }
}

impl StagingBuffer {
    /// A staging buffer of `size` bytes: a transfer source in coherent,
    /// host-visible memory.
    pub fn create(size: u64) -> (staging: StagingBuffer)
        ensures
            staging.base == (BaseBuffer {
                usage: BUFFER_TRANSFER_SRC,
                props: MEMORY_COHERENT | MEMORY_CPU_VISIBLE,
                size_in_bytes: size,
            }),
    {
        StagingBuffer {
            base: BaseBuffer::create(BUFFER_TRANSFER_SRC, MEMORY_COHERENT | MEMORY_CPU_VISIBLE, size),
        }
    }

    /// The steps that put `data_len` elements of `type_size` bytes at the
    /// start of the staging buffer, whose memory starts at `block_start`: the
    /// memory is written once the transfer before it is over. The elements
    /// must fit the buffer.
    pub fn upload(&self, type_size: usize, data_len: usize, block_start: u64) -> (steps: Vec<
        UploadStep,
    >)
        requires
            type_size * data_len <= self.base.size_in_bytes,
            block_start + type_size * data_len <= u64::MAX,
        ensures
            steps@ == seq![
                UploadStep::WaitForFence,
                UploadStep::ResetFence,
                UploadStep::Write(
                    ByteRange {
                        start: block_start,
                        end: (block_start + type_size * data_len) as u64,
                    },
                ),
            ],
    {
        proof {
            assert(0 <= type_size * data_len) by (nonlinear_arith)
                requires
                    0 <= type_size,
                    0 <= data_len,
            ;
        }
        let size_in_bytes = ((type_size as u64) * (data_len as u64));
        let mapped = ByteRange { start: block_start, end: block_start + size_in_bytes };
        let mut steps: Vec<UploadStep> = Vec::new();
        steps.push(UploadStep::WaitForFence);
        steps.push(UploadStep::ResetFence);
        steps.push(UploadStep::Write(mapped));
        assert(steps@ =~= seq![
            UploadStep::WaitForFence,
            UploadStep::ResetFence,
            UploadStep::Write(mapped),
        ]);
        steps
    }

    /// Whether `data_len` elements of `type_size` bytes fit the buffer.
    pub fn holds(&self, type_size: usize, data_len: usize) -> (ok: bool)
        ensures
            ok == (type_size * data_len <= self.base.size_in_bytes),
    {
        proof {
            assert(0 <= type_size * data_len) by (nonlinear_arith)
                requires
                    0 <= type_size,
                    0 <= data_len,
            ;
        }
        match (type_size as u64).checked_mul(data_len as u64) {
            Some(bytes) => bytes <= self.base.size_in_bytes,
            None => false,
        }
    }
}

} // verus!
