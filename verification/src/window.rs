//! The window: the size it is known to have.

use vstd::prelude::*;

verus! {

/// The size of a window's drawing area, as the last resize left it.
#[derive(Clone, Copy, Debug)]
pub struct Window {
    pub dims: (u32, u32),
}

/// The size after the events `resized[..n]`, each of which is the new size
/// where the event was a resize: the last resize decides.
pub open spec fn dims_after(dims: (u32, u32), resized: Seq<Option<(u32, u32)>>, n: int) -> (u32, u32)
    decreases n,
{
    if n <= 0 {
        dims
    } else {
        match resized[n - 1] {
            Some(new_dims) => new_dims,
            None => dims_after(dims, resized, n - 1),
        }
    }
}

impl Window {
    /// A window of the given size.
    pub fn new(dims: (u32, u32)) -> (window: Window)
        ensures
            window.dims == dims,
    {
        Window { dims }
    }

    /// The width of the drawing area.
    pub fn width(&self) -> (width: u32)
        ensures
            width == self.dims.0,
    {
        self.dims.0
    }

    /// The height of the drawing area.
    pub fn height(&self) -> (height: u32)
        ensures
            height == self.dims.1,
    {
        self.dims.1
    }

    /// Takes note of a new size.
    pub fn resize(&mut self, dims: (u32, u32))
        ensures
            final(self).dims == dims,
    {
        self.dims = dims;
    }

    /// Takes note of the events of one poll. `resized` holds for each event
    /// the new size where it was a resize. The last resize decides the size;
    /// without one it stays.
    pub fn poll_events(&mut self, resized: &[Option<(u32, u32)>])
        ensures
            final(self).dims == dims_after(old(self).dims, resized@, resized@.len() as int),
    {
        let mut new_dims: Option<(u32, u32)> = None;
        let mut i: usize = 0;
        while i < resized.len()
            invariant
                i <= resized@.len(),
                dims_after(self.dims, resized@, i as int) == (match new_dims {
                    Some(dims) => dims,
                    None => self.dims,
                }),
            decreases resized@.len() - i,
        {
            match resized[i] {
                Some(dims) => {
                    new_dims = Some(dims);
                },
                None => {},
            }
            i += 1;
        }
        match new_dims {
            Some(dims) => {
                self.dims = dims;
            },
            None => {},
        }
    }
}

} // verus!
