//! Framebuffers: which views each frame is made of, and how large it is.

use crate::texture::Extent;
use vstd::prelude::*;

verus! {

/// A view a frame draws to.
#[derive(Clone, Copy, Debug, PartialEq, Eq, Structural)]
pub enum FrameView {
    /// The swapchain image at this position.
    Image(usize),
    /// The swapchain's depth texture.
    Depth,
}

/// One frame: its views in attachment order, and its size.
pub struct Frame {
    pub views: Vec<FrameView>,
    pub size: Extent,
}

/// The frames a framebuffer is created from.
pub struct FrameBuffer {
    pub frames: Vec<Frame>,
}

/// The views of the frame for the swapchain image at `index`: the image,
/// then the depth texture.
pub open spec fn swapchain_views(index: int) -> Seq<FrameView> {
    seq![FrameView::Image(index as usize), FrameView::Depth]
}

impl FrameBuffer {
    /// One frame for each list of views, with the size at the same position.
    /// There must be a size for each list.
    pub fn create(views: &[Vec<FrameView>], sizes: &[Extent]) -> (buffer: FrameBuffer)
        requires
            views@.len() <= sizes@.len(),
        ensures
            buffer.frames@.len() == views@.len(),
            forall|k: int|
                0 <= k < views@.len() ==> (#[trigger] buffer.frames@[k]).views@ == views@[k]@
                    && buffer.frames@[k].size == sizes@[k],
    {
        let mut frames: Vec<Frame> = Vec::new();
        let mut i: usize = 0;
        while i < views.len()
            invariant
                i <= views@.len() <= sizes@.len(),
                frames@.len() == i,
                forall|k: int|
                    0 <= k < i ==> (#[trigger] frames@[k]).views@ == views@[k]@ && frames@[k].size
                        == sizes@[k],
            decreases views@.len() - i,
        {
            let frame = Frame { views: FrameBuffer::copy_views(&views[i]), size: sizes[i] };
            frames.push(frame);
            i += 1;
        }
        FrameBuffer { frames }
    }

    fn copy_views(views: &Vec<FrameView>) -> (copy: Vec<FrameView>)
        ensures
            copy@ == views@,
    {
        let mut copy: Vec<FrameView> = Vec::new();
        let mut i: usize = 0;
        while i < views.len()
            invariant
                i <= views@.len(),
                copy@ == views@.take(i as int),
            decreases views@.len() - i,
        {
            copy.push(views[i]);
            assert(copy@ =~= views@.take(i + 1));
            i += 1;
        }
        assert(copy@ =~= views@);
        copy
    }

    /// One frame of the same size for each list of views.
    pub fn create_same_size(views: &[Vec<FrameView>], size: Extent) -> (buffer: FrameBuffer)
        ensures
            buffer.frames@.len() == views@.len(),
            forall|k: int|
                0 <= k < views@.len() ==> (#[trigger] buffer.frames@[k]).views@ == views@[k]@
                    && buffer.frames@[k].size == size,
    {
        let mut sizes: Vec<Extent> = Vec::new();
        let mut i: usize = 0;
        while i < views.len()
            invariant
                i <= views@.len(),
                sizes@.len() == i,
                forall|k: int| 0 <= k < i ==> sizes@[k] == size,
            decreases views@.len() - i,
        {
            sizes.push(size);
            i += 1;
        }
        FrameBuffer::create(views, sizes.as_slice())
    }

    /// One frame for each of the `image_count` images of a swapchain of the
    /// size `dims`: the image and the depth texture.
    pub fn from_swapchain(image_count: usize, dims: Extent) -> (buffer: FrameBuffer)
        ensures
            buffer.frames@.len() == image_count,
            forall|k: int|
                0 <= k < image_count ==> (#[trigger] buffer.frames@[k]).views@ == swapchain_views(k)
                    && buffer.frames@[k].size == dims,
    {
        let mut views: Vec<Vec<FrameView>> = Vec::new();
        let mut i: usize = 0;
        while i < image_count
            invariant
                i <= image_count,
                views@.len() == i,
                forall|k: int| 0 <= k < i ==> (#[trigger] views@[k])@ == swapchain_views(k),
            decreases image_count - i,
        {
            let mut frame: Vec<FrameView> = Vec::new();
            frame.push(FrameView::Image(i));
            frame.push(FrameView::Depth);
            assert(frame@ =~= swapchain_views(i as int));
            views.push(frame);
            i += 1;
        }
        FrameBuffer::create_same_size(views.as_slice(), dims)
    }

    /// The number of frames.
    pub fn len(&self) -> (n: usize)
        ensures
            n == self.frames@.len(),
    {
        self.frames.len()
    }
}

} // verus!
