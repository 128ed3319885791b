//! The frame and depth buffers: flat width x height grids addressed as
//! `x + y * width`, with the vertical axis stored bottom-to-top. The frame
//! buffer holds RGB pixels; the depth buffer holds fixed-point depths,
//! initialized to the sentinel -1 and only ever raised by the rasterizer.

use vstd::prelude::*;
use crate::fx::SCALE;

verus! {

/// An RGB color with 8-bit channels.
#[derive(Clone, Copy, PartialEq, Eq, Structural, Debug)]
pub struct Rgb {
    pub r: u8,
    pub g: u8,
    pub b: u8,
}

/// Black, the clear color of a fresh frame buffer.
pub open spec fn black_spec() -> Rgb {
    Rgb { r: 0, g: 0, b: 0 }
}

/// The flat index of pixel `(x, y)` in a grid `w` wide.
pub open spec fn grid_index(x: int, y: int, w: int) -> int {
    x + y * w
}

/// A pixel inside a `w` x `h` grid maps to an index inside the grid's
/// backing store.
pub proof fn lemma_grid_index_bounds(x: int, y: int, w: int, h: int)
    requires
        0 <= x < w,
        0 <= y < h,
    ensures
        0 <= grid_index(x, y, w) < w * h,
{
    assert(0 <= x + y * w < w * h) by (nonlinear_arith)
        requires
            0 <= x < w,
            0 <= y < h,
    ;
}

/// A width x height grid of RGB pixels.
pub struct Image {
    pub width: usize,
    pub height: usize,
    pub pixels: Vec<Rgb>,
}

impl Image {
    /// The backing store holds exactly one pixel per grid cell.
    pub open spec fn wf(self) -> bool {
        self.pixels@.len() == self.width * self.height && self.width * self.height <= usize::MAX
    }

    /// A fresh all-black image.
    pub fn new(width: usize, height: usize) -> (r: Image)
        requires
            width * height <= usize::MAX,
        ensures
            r.wf(),
            r.width == width,
            r.height == height,
            forall|i: int| 0 <= i < r.pixels@.len() ==> r.pixels@[i] == black_spec(),
    {
        let n = width * height;
        let mut pixels: Vec<Rgb> = Vec::new();
        let mut k: usize = 0;
        while k < n
            invariant
                k <= n,
                pixels@.len() == k,
                forall|i: int| 0 <= i < k ==> pixels@[i] == black_spec(),
            decreases n - k,
        {
            pixels.push(Rgb { r: 0, g: 0, b: 0 });
            k = k + 1;
        }
        Image { width, height, pixels }
    }

    pub fn width(&self) -> (r: usize)
        ensures
            r == self.width,
    {
        self.width
    }

    pub fn height(&self) -> (r: usize)
        ensures
            r == self.height,
    {
        self.height
    }

    /// Write one pixel.
    pub fn put_pixel(&mut self, x: usize, y: usize, color: Rgb)
        requires
            old(self).wf(),
            x < old(self).width,
            y < old(self).height,
        ensures
            final(self).wf(),
            final(self).width == old(self).width,
            final(self).height == old(self).height,
            final(self).pixels@ == old(self).pixels@.update(
                grid_index(x as int, y as int, old(self).width as int),
                color,
            ),
    {
        proof {
            lemma_grid_index_bounds(x as int, y as int, self.width as int, self.height as int);
        }
        let idx = x + y * self.width;
        self.pixels[idx] = color;
    }

    /// Read one pixel.
    pub fn get_pixel(&self, x: usize, y: usize) -> (r: Rgb)
        requires
            self.wf(),
            x < self.width,
            y < self.height,
        ensures
            r == self.pixels@[grid_index(x as int, y as int, self.width as int)],
    {
        proof {
            lemma_grid_index_bounds(x as int, y as int, self.width as int, self.height as int);
        }
        let idx = x + y * self.width;
        self.pixels[idx]
    }
}

/// A width x height grid of fixed-point depth values.
pub struct DepthBuffer {
    pub width: usize,
    pub height: usize,
    pub data: Vec<i64>,
}

/// The sentinel depth of an untouched pixel: -1, farther than any fragment
/// the depth test accepts.
pub open spec fn depth_empty_spec() -> int {
    -(SCALE as int)
}

impl DepthBuffer {
    pub open spec fn wf(self) -> bool {
        self.data@.len() == self.width * self.height && self.width * self.height <= usize::MAX
    }

    /// A fresh depth buffer, every cell at the sentinel depth.
    pub fn new(width: usize, height: usize) -> (r: DepthBuffer)
        requires
            width * height <= usize::MAX,
        ensures
            r.wf(),
            r.width == width,
            r.height == height,
            forall|i: int| 0 <= i < r.data@.len() ==> r.data@[i] == depth_empty_spec(),
    {
        let n = width * height;
        let mut data: Vec<i64> = Vec::new();
        let mut k: usize = 0;
        while k < n
            invariant
                k <= n,
                data@.len() == k,
                forall|i: int| 0 <= i < k ==> data@[i] == depth_empty_spec(),
            decreases n - k,
        {
            data.push(-SCALE);
            k = k + 1;
        }
        DepthBuffer { width, height, data }
    }

    pub fn width(&self) -> (r: usize)
        ensures
            r == self.width,
    {
        self.width
    }

    pub fn height(&self) -> (r: usize)
        ensures
            r == self.height,
    {
        self.height
    }

    /// Write one depth value.
    pub fn put_depth(&mut self, x: usize, y: usize, depth: i64)
        requires
            old(self).wf(),
            x < old(self).width,
            y < old(self).height,
        ensures
            final(self).wf(),
            final(self).width == old(self).width,
            final(self).height == old(self).height,
            final(self).data@ == old(self).data@.update(
                grid_index(x as int, y as int, old(self).width as int),
                depth,
            ),
    {
        proof {
            lemma_grid_index_bounds(x as int, y as int, self.width as int, self.height as int);
        }
        let idx = x + y * self.width;
        self.data[idx] = depth;
    }

    /// Read one depth value.
    pub fn get_depth(&self, x: usize, y: usize) -> (r: i64)
        requires
            self.wf(),
            x < self.width,
            y < self.height,
        ensures
            r == self.data@[grid_index(x as int, y as int, self.width as int)],
    {
        proof {
            lemma_grid_index_bounds(x as int, y as int, self.width as int, self.height as int);
        }
        let idx = x + y * self.width;
        self.data[idx]
    }
}

} // verus!
