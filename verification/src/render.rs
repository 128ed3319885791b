//! The rasterizer: Bresenham line drawing, scanline triangle filling, and
//! barycentric triangle filling with perspective-correct depth testing, plus
//! the two whole-mesh entry points (wireframe and shaded).
//!
//! Every drawing function's contract pins the final buffer exactly: a spec
//! function mirrors the pixels the algorithm chooses, and the ensures equates
//! the buffer with the old buffer overwritten at exactly those pixels.

use vstd::prelude::*;
use crate::fx::{Fx, fx_of, fx_div, fx_neg, sat_i64, sat_i128, sdiv128_spec, tdiv, tdiv_i128, SCALE};
use crate::buffer::{Image, DepthBuffer, Rgb, grid_index, lemma_grid_index_bounds};
use crate::vector::{Fx2, Fx3, Fx4, v3_sub_spec, v3_norm_spec};
use crate::matrix::Mat4;
use crate::shader::{
    Shader, Barycentric, bary_spec, bary_inside_spec, abs_int, find_barycentric, GouraudShader,
    Mat2x3, lookat, lookat_spec, projection, projection_spec, viewport, viewport_spec, zero2_spec,
    zero3_spec, screen_position_spec,
};
use crate::wavefront::Object;

verus! {

/// The smaller of two integers.
pub open spec fn min_int(a: int, b: int) -> int {
    if a <= b {
        a
    } else {
        b
    }
}

/// The larger of two integers.
pub open spec fn max_int(a: int, b: int) -> int {
    if a >= b {
        a
    } else {
        b
    }
}

/// The line axes after Bresenham's two normalizations: the coordinates are
/// swapped when the line is steep, and the endpoints are swapped so the
/// walked axis increases. Returns `(a0, b0, a1, b1)` with `a0 <= a1` and
/// `|b1 - b0| <= a1 - a0`.
pub open spec fn line_axes_spec(x0: int, y0: int, x1: int, y1: int) -> (int, int, int, int) {
    let steep = abs_int(x0 - x1) < abs_int(y0 - y1);
    let a0 = if steep {
        y0
    } else {
        x0
    };
    let b0 = if steep {
        x0
    } else {
        y0
    };
    let a1 = if steep {
        y1
    } else {
        x1
    };
    let b1 = if steep {
        x1
    } else {
        y1
    };
    if a0 > a1 {
        (a1, b1, a0, b0)
    } else {
        (a0, b0, a1, b1)
    }
}

/// The Bresenham error accumulator state before step `k`: the offset walked
/// along the second axis, and the running error. Each step adds `2|dy|` to
/// the error; when it exceeds `dx` the offset advances one pixel toward the
/// far endpoint and the error drops by `2 dx`.
pub open spec fn bres_state_spec(dx: int, dy: int, k: nat) -> (int, int)
    decreases k,
{
    if k == 0 {
        (0, 0)
    } else {
        let prev = bres_state_spec(dx, dy, (k - 1) as nat);
        let e = prev.1 + 2 * abs_int(dy);
        if e > dx {
            (prev.0 + if dy > 0 {
                1int
            } else {
                -1int
            }, e - 2 * dx)
        } else {
            (prev.0, e)
        }
    }
}

/// The `k`-th pixel Bresenham lights on the line from `(x0, y0)` to
/// `(x1, y1)`, in buffer coordinates.
pub open spec fn line_pixel_spec(x0: int, y0: int, x1: int, y1: int, k: nat) -> (int, int) {
    let steep = abs_int(x0 - x1) < abs_int(y0 - y1);
    let axes = line_axes_spec(x0, y0, x1, y1);
    let st = bres_state_spec(axes.2 - axes.0, axes.3 - axes.1, k);
    let a = axes.0 + k;
    let b = axes.1 + st.0;
    if steep {
        (b, a)
    } else {
        (a, b)
    }
}

/// How many pixels the line lights: one per column of the walked axis.
pub open spec fn line_pixel_count_spec(x0: int, y0: int, x1: int, y1: int) -> nat {
    (max_int(abs_int(x0 - x1), abs_int(y0 - y1)) + 1) as nat
}

/// The frame after the first `k` pixels of the line are painted.
pub open spec fn paint_line_spec(
    frame: Seq<Rgb>,
    w: int,
    x0: int,
    y0: int,
    x1: int,
    y1: int,
    color: Rgb,
    k: nat,
) -> Seq<Rgb>
    decreases k,
{
    if k == 0 {
        frame
    } else {
        let prev = paint_line_spec(frame, w, x0, y0, x1, y1, color, (k - 1) as nat);
        let p = line_pixel_spec(x0, y0, x1, y1, (k - 1) as nat);
        prev.update(grid_index(p.0, p.1, w), color)
    }
}

/// Bresenham's algorithm: draw a line in the given color from `(x0, y0)` to
/// `(x1, y1)`. The contract pins every pixel: the new frame is the old frame
/// overwritten at exactly the pixels `line_pixel_spec` enumerates.
pub fn draw_line(x0: usize, y0: usize, x1: usize, y1: usize, buffer: &mut Image, color: Rgb)
    requires
        old(buffer).wf(),
        x0 < old(buffer).width,
        x1 < old(buffer).width,
        y0 < old(buffer).height,
        y1 < old(buffer).height,
        old(buffer).width <= 0xffff_ffff,
        old(buffer).height <= 0xffff_ffff,
    ensures
        final(buffer).wf(),
        final(buffer).width == old(buffer).width,
        final(buffer).height == old(buffer).height,
        final(buffer).pixels@ == paint_line_spec(
            old(buffer).pixels@,
            old(buffer).width as int,
            x0 as int,
            y0 as int,
            x1 as int,
            y1 as int,
            color,
            line_pixel_count_spec(x0 as int, y0 as int, x1 as int, y1 as int),
        ),
{
    let ghost w = buffer.width as int;
    let ghost h = buffer.height as int;
    let ghost frame0 = buffer.pixels@;

    let dx_abs: i64 = if x0 >= x1 {
        (x0 - x1) as i64
    } else {
        (x1 - x0) as i64
    };
    let dy_abs: i64 = if y0 >= y1 {
        (y0 - y1) as i64
    } else {
        (y1 - y0) as i64
    };
    let steep = dx_abs < dy_abs;

    let (mut a0, mut b0) = if steep {
        (y0 as i64, x0 as i64)
    } else {
        (x0 as i64, y0 as i64)
    };
    let (mut a1, mut b1) = if steep {
        (y1 as i64, x1 as i64)
    } else {
        (x1 as i64, y1 as i64)
    };
    if a0 > a1 {
        let ta = a0;
        a0 = a1;
        a1 = ta;
        let tb = b0;
        b0 = b1;
        b1 = tb;
    }
    proof {
        assert((a0 as int, b0 as int, a1 as int, b1 as int) == line_axes_spec(
            x0 as int,
            y0 as int,
            x1 as int,
            y1 as int,
        ));
    }

    let dx = a1 - a0;
    let dy = b1 - b0;
    let ady: i64 = if dy >= 0 {
        dy
    } else {
        -dy
    };
    let delta_error = 2 * ady;
    let ydir: i64 = if b1 > b0 {
        1
    } else {
        -1
    };
    let mut y = b0;
    let mut error: i64 = 0;
    let mut x = a0;
    let ghost blo = min_int(b0 as int, b1 as int);
    let ghost bhi = max_int(b0 as int, b1 as int);
    proof {
        assert(2 * (ady as int) * ((x - a0) as int) == 0 && 2 * (dx as int) * abs_int(
            y - b0 as int,
        ) == 0) by (nonlinear_arith)
            requires
                x == a0,
                y == b0,
        ;
    }

    while x <= a1
        invariant
            buffer.wf(),
            buffer.width == old(buffer).width,
            buffer.height == old(buffer).height,
            w == buffer.width as int,
            h == buffer.height as int,
            frame0 == old(buffer).pixels@,
            (a0 as int, b0 as int, a1 as int, b1 as int) == line_axes_spec(
                x0 as int,
                y0 as int,
                x1 as int,
                y1 as int,
            ),
            0 <= a0 <= a1,
            a1 <= 0xffff_ffff,
            0 <= b0 <= 0xffff_ffff,
            0 <= b1 <= 0xffff_ffff,
            dx == a1 - a0,
            dy == b1 - b0,
            ady == abs_int(dy as int),
            ady <= dx,
            delta_error == 2 * ady,
            ydir == (if dy > 0 {
                1int
            } else {
                -1int
            }),
            a0 <= x <= a1 + 1,
            (y - b0, error as int) == bres_state_spec(dx as int, dy as int, (x - a0) as nat),
            error == 2 * (ady as int) * ((x - a0) as int) - 2 * (dx as int) * abs_int(y - b0 as int),
            if dy >= 0 {
                b0 <= y
            } else {
                y <= b0
            },
            dx > 0 ==> -dx < error <= dx,
            dx == 0 ==> error == 0 && y == b0,
            steep == (abs_int(x0 as int - x1 as int) < abs_int(y0 as int - y1 as int)),
            blo == min_int(b0 as int, b1 as int),
            bhi == max_int(b0 as int, b1 as int),
            (if steep {
                0 <= blo && bhi < w && 0 <= a0 && a1 < h
            } else {
                0 <= blo && bhi < h && 0 <= a0 && a1 < w
            }),
            buffer.pixels@ == paint_line_spec(
                frame0,
                w,
                x0 as int,
                y0 as int,
                x1 as int,
                y1 as int,
                color,
                (x - a0) as nat,
            ),
        decreases a1 + 1 - x,
    {
        let ghost k = (x - a0) as nat;
        proof {
            // The pixel about to be lit is inside [blo, bhi] on the b axis:
            // from the error relation, the offset walked so far is at most
            // |dy|.
            let m = abs_int(y - b0 as int);
            if dx > 0 {
                assert(2 * (dx as int) * m <= 2 * (ady as int) * ((x - a0) as int) + dx);
                assert(m <= ady) by (nonlinear_arith)
                    requires
                        2 * (dx as int) * m <= 2 * (ady as int) * ((x - a0) as int) + dx,
                        0 <= (x - a0) as int <= dx,
                        0 <= ady <= dx,
                        0 < dx,
                        0 <= m,
                ;
            }
            assert(blo <= y <= bhi);
            assert(line_pixel_spec(x0 as int, y0 as int, x1 as int, y1 as int, k) == (if steep {
                (y as int, x as int)
            } else {
                (x as int, y as int)
            }));
        }
        if steep {
            buffer.put_pixel(y as usize, x as usize, color);
        } else {
            buffer.put_pixel(x as usize, y as usize, color);
        }
        proof {
            assert(buffer.pixels@ == paint_line_spec(
                frame0,
                w,
                x0 as int,
                y0 as int,
                x1 as int,
                y1 as int,
                color,
                (k + 1) as nat,
            ));
        }
        let ghost e_before = error as int;
        let ghost y_before = y as int;
        let ghost m_before = abs_int(y_before - b0 as int);
        error = error + delta_error;
        if error > dx {
            y = y + ydir;
            error = error - 2 * dx;
        }
        proof {
            let kk = (x - a0) as int;
            assert(2 * (ady as int) * (kk + 1) == 2 * (ady as int) * kk + 2 * (ady as int))
                by (nonlinear_arith);
            assert(2 * (dx as int) * (m_before + 1) == 2 * (dx as int) * m_before + 2 * (dx as int))
                by (nonlinear_arith);
            if e_before + 2 * (ady as int) > dx {
                // A step toward the far endpoint: the walked offset grows by
                // one, and the error drops by 2 dx.
                assert(abs_int(y - b0 as int) == m_before + 1);
                assert(error == 2 * (ady as int) * (kk + 1) - 2 * (dx as int) * abs_int(
                    y - b0 as int,
                ));
            } else {
                assert(error == 2 * (ady as int) * (kk + 1) - 2 * (dx as int) * abs_int(
                    y - b0 as int,
                ));
            }
            assert((y - b0, error as int) == bres_state_spec(
                dx as int,
                dy as int,
                (x + 1 - a0) as nat,
            ));
        }
        x = x + 1;
    }
    proof {
        assert((x - a0) as nat == line_pixel_count_spec(x0 as int, y0 as int, x1 as int, y1 as int));
    }
}

/// A fixed-point coordinate as a pixel column or row, the way a float is
/// cast to `u32`: truncated toward zero, negatives clamped to 0, and capped
/// at the top of the `u32` range.
pub open spec fn px_u32_spec(v: int) -> int {
    let t = tdiv(v, SCALE as int);
    if t < 0 {
        0
    } else if t > 0xffff_ffff {
        0xffff_ffff
    } else {
        t
    }
}

fn px_u32(v: Fx) -> (r: usize)
    ensures
        r as int == px_u32_spec(v.v()),
{
    let t = tdiv_i128(v.raw as i128, SCALE as i128);
    if t < 0 {
        0
    } else if t > 0xffff_ffff {
        0xffff_ffff
    } else {
        t as usize
    }
}

/// The running bounding box after folding in each projected point: minima
/// start at the buffer's far corner, maxima at the origin, as the fold's
/// seeds.
pub open spec fn bbox_fold_spec(pts: Seq<Fx2>, w: int, h: int) -> (int, int, int, int)
    decreases pts.len(),
{
    if pts.len() == 0 {
        (w - 1, h - 1, 0, 0)
    } else {
        let rest = bbox_fold_spec(pts.drop_last(), w, h);
        let px = px_u32_spec(pts.last().x.v());
        let py = px_u32_spec(pts.last().y.v());
        (min_int(rest.0, px), min_int(rest.1, py), max_int(rest.2, px), max_int(rest.3, py))
    }
}

/// The bounding box of the projected points, defensively clamped to the
/// buffer so that no rounded coordinate can land outside it.
pub open spec fn bounding_box_spec(pts: Seq<Fx2>, w: int, h: int) -> (int, int, int, int) {
    let f = bbox_fold_spec(pts, w, h);
    (f.0, f.1, min_int(f.2, w - 1), min_int(f.3, h - 1))
}

/// The folded box stays inside the `u32` grid, and its minima inside the
/// buffer.
pub proof fn lemma_bbox_fold_bounds(pts: Seq<Fx2>, w: int, h: int)
    requires
        w >= 1,
        h >= 1,
    ensures
        ({
            let f = bbox_fold_spec(pts, w, h);
            0 <= f.0 <= w - 1 && 0 <= f.1 <= h - 1 && 0 <= f.2 <= 0xffff_ffff && 0 <= f.3
                <= 0xffff_ffff
        }),
    decreases pts.len(),
{
    if pts.len() > 0 {
        lemma_bbox_fold_bounds(pts.drop_last(), w, h);
    }
}

/// Find the bounding box of the given points, clamped to the buffer extents.
pub fn find_bounding_box(points: &Vec<Fx2>, buffer: &Image) -> (r: ((usize, usize), (
    usize,
    usize,
)))
    requires
        buffer.wf(),
        buffer.width >= 1,
        buffer.height >= 1,
        buffer.width <= 0xffff_ffff,
        buffer.height <= 0xffff_ffff,
    ensures
        ({
            let bb = bounding_box_spec(points@, buffer.width as int, buffer.height as int);
            r.0.0 as int == bb.0 && r.0.1 as int == bb.1 && r.1.0 as int == bb.2 && r.1.1 as int
                == bb.3 && r.0.0 < buffer.width && r.0.1 < buffer.height && r.1.0 < buffer.width
                && r.1.1 < buffer.height
        }),
{
    let ghost w = buffer.width as int;
    let ghost h = buffer.height as int;
    let mut min_x: usize = buffer.width - 1;
    let mut min_y: usize = buffer.height - 1;
    let mut max_x: usize = 0;
    let mut max_y: usize = 0;
    let mut i: usize = 0;
    proof {
        assert(points@.take(0int) =~= Seq::<Fx2>::empty());
    }
    while i < points.len()
        invariant
            i <= points@.len(),
            w == buffer.width as int,
            h == buffer.height as int,
            w >= 1,
            h >= 1,
            (min_x as int, min_y as int, max_x as int, max_y as int) == bbox_fold_spec(
                points@.take(i as int),
                w,
                h,
            ),
            max_x <= 0xffff_ffff,
            max_y <= 0xffff_ffff,
        decreases points@.len() - i,
    {
        let px = px_u32(points[i].x);
        let py = px_u32(points[i].y);
        proof {
            assert(points@.take(i + 1).drop_last() =~= points@.take(i as int));
            assert(points@.take(i + 1).last() == points@[i as int]);
        }
        if px < min_x {
            min_x = px;
        }
        if py < min_y {
            min_y = py;
        }
        if px > max_x {
            max_x = px;
        }
        if py > max_y {
            max_y = py;
        }
        i = i + 1;
    }
    proof {
        assert(points@.take(points@.len() as int) =~= points@);
        lemma_bbox_fold_bounds(points@, w, h);
    }
    let cmax_x = if max_x > buffer.width - 1 {
        buffer.width - 1
    } else {
        max_x
    };
    let cmax_y = if max_y > buffer.height - 1 {
        buffer.height - 1
    } else {
        max_y
    };
    ((min_x, min_y), (cmax_x, cmax_y))
}

/// A homogeneous vertex projected to the screen plane: x and y divided by w.
pub open spec fn tri_projected_spec(p: Fx4) -> Fx2 {
    Fx2 { x: fx_of(fx_div(p.x.v(), p.w.v())), y: fx_of(fx_div(p.y.v(), p.w.v())) }
}

/// The clamped bounding box of the triangle's three projected corners.
pub open spec fn tri_box_spec(p0: Fx4, p1: Fx4, p2: Fx4, w: int, h: int) -> (int, int, int, int) {
    bounding_box_spec(
        seq![tri_projected_spec(p0), tri_projected_spec(p1), tri_projected_spec(p2)],
        w,
        h,
    )
}

/// Whether pixel `(x, y)` lies in the triangle's clamped bounding box.
pub open spec fn tri_in_box_spec(p0: Fx4, p1: Fx4, p2: Fx4, w: int, h: int, x: int, y: int) -> bool {
    let bb = tri_box_spec(p0, p1, p2, w, h);
    bb.0 <= x <= bb.2 && bb.1 <= y <= bb.3
}

/// The barycentric weights of pixel `(x, y)` with respect to the projected
/// triangle.
pub open spec fn tri_pixel_bary_spec(p0: Fx4, p1: Fx4, p2: Fx4, x: int, y: int) -> Barycentric {
    bary_spec(
        tri_projected_spec(p0),
        tri_projected_spec(p1),
        tri_projected_spec(p2),
        sat_i64(x * (SCALE as int)),
        sat_i64(y * (SCALE as int)),
    )
}

/// The perspective-correct depth at the given weights: z and w interpolated
/// independently as weighted sums over the corners, then divided. The common
/// denominator of the weights cancels in the quotient.
pub open spec fn tri_depth_value_spec(p0: Fx4, p1: Fx4, p2: Fx4, b: Barycentric) -> int {
    let zn = sat_i128(
        sat_i128(sat_i128(p0.z.v() * b.n0) + sat_i128(p1.z.v() * b.n1)) + sat_i128(
            p2.z.v() * b.n2,
        ),
    );
    let wn = sat_i128(
        sat_i128(sat_i128(p0.w.v() * b.n0) + sat_i128(p1.w.v() * b.n1)) + sat_i128(
            p2.w.v() * b.n2,
        ),
    );
    sat_i64(sdiv128_spec(sat_i128(zn * (SCALE as int)), wn))
}

/// Interpolate the perspective-correct depth of a pixel from the three
/// homogeneous corners and its barycentric weights.
pub fn interpolate_depth(p0: Fx4, p1: Fx4, p2: Fx4, b: &Barycentric) -> (r: i64)
    ensures
        r as int == tri_depth_value_spec(p0, p1, p2, *b),
{
    let zn = crate::fx::sadd_i128(
        crate::fx::sadd_i128(
            crate::fx::smul_i128(p0.z.raw as i128, b.n0),
            crate::fx::smul_i128(p1.z.raw as i128, b.n1),
        ),
        crate::fx::smul_i128(p2.z.raw as i128, b.n2),
    );
    let wn = crate::fx::sadd_i128(
        crate::fx::sadd_i128(
            crate::fx::smul_i128(p0.w.raw as i128, b.n0),
            crate::fx::smul_i128(p1.w.raw as i128, b.n1),
        ),
        crate::fx::smul_i128(p2.w.raw as i128, b.n2),
    );
    let q = crate::fx::sdiv_i128(crate::fx::smul_i128(zn, SCALE as i128), wn);
    crate::fx::clamp_to_i64(q)
}

/// Whether the pixel passes both the weight signs and the depth test against
/// the depth value `zold` it had before this triangle.
pub open spec fn tri_covered_spec(p0: Fx4, p1: Fx4, p2: Fx4, x: int, y: int, zold: int) -> bool {
    let b = tri_pixel_bary_spec(p0, p1, p2, x, y);
    bary_inside_spec(b) && zold < tri_depth_value_spec(p0, p1, p2, b)
}

/// What one frame-buffer cell holds after the triangle: the shaded fragment
/// where the pixel is in the box, admitted by the weights and strictly
/// closer than the old depth; its old color everywhere else.
pub open spec fn tri_cell_color_spec<S: Shader>(
    frame: Seq<Rgb>,
    zb: Seq<i64>,
    w: int,
    h: int,
    p0: Fx4,
    p1: Fx4,
    p2: Fx4,
    sh: S,
    tex: Image,
    i: int,
) -> Rgb {
    let x = i % w;
    let y = i / w;
    if tri_in_box_spec(p0, p1, p2, w, h, x, y) && tri_covered_spec(p0, p1, p2, x, y, zb[i] as int) {
        sh.fragment_spec(tri_pixel_bary_spec(p0, p1, p2, x, y), tex)
    } else {
        frame[i]
    }
}

/// What one depth-buffer cell holds after the triangle.
pub open spec fn tri_cell_depth_spec(
    zb: Seq<i64>,
    w: int,
    h: int,
    p0: Fx4,
    p1: Fx4,
    p2: Fx4,
    i: int,
) -> i64 {
    let x = i % w;
    let y = i / w;
    if tri_in_box_spec(p0, p1, p2, w, h, x, y) && tri_covered_spec(p0, p1, p2, x, y, zb[i] as int) {
        tri_depth_value_spec(p0, p1, p2, tri_pixel_bary_spec(p0, p1, p2, x, y)) as i64
    } else {
        zb[i]
    }
}

/// The whole frame after the triangle, cell by cell.
pub open spec fn tri_frame_spec<S: Shader>(
    frame: Seq<Rgb>,
    zb: Seq<i64>,
    w: int,
    h: int,
    p0: Fx4,
    p1: Fx4,
    p2: Fx4,
    sh: S,
    tex: Image,
) -> Seq<Rgb> {
    Seq::new(frame.len(), |i: int| tri_cell_color_spec(frame, zb, w, h, p0, p1, p2, sh, tex, i))
}

/// The whole depth buffer after the triangle, cell by cell.
pub open spec fn tri_depth_spec(
    zb: Seq<i64>,
    w: int,
    h: int,
    p0: Fx4,
    p1: Fx4,
    p2: Fx4,
) -> Seq<i64> {
    Seq::new(zb.len(), |i: int| tri_cell_depth_spec(zb, w, h, p0, p1, p2, i))
}

/// A pixel's coordinates round-trip through its flat grid index.
proof fn lemma_grid_coords(x: int, y: int, w: int)
    requires
        0 <= x < w,
        0 <= y,
    ensures
        grid_index(x, y, w) % w == x,
        grid_index(x, y, w) / w == y,
{
    vstd::arithmetic::div_mod::lemma_fundamental_div_mod_converse(x + y * w, w, y, x);
}

/// Draw a filled triangle from its three homogeneous screen-space corners,
/// shading each covered pixel and depth-testing it against `zbuffer`. The
/// contract pins both buffers pointwise: a pixel is rewritten exactly when
/// it lies in the clamped bounding box, its barycentric weights are all
/// non-negative, and its interpolated depth is strictly closer than the
/// depth the pixel had when the triangle began.
pub fn draw_triangle<S: Shader>(
    points: &Vec<Fx4>,
    buffer: &mut Image,
    texture: &Image,
    zbuffer: &mut DepthBuffer,
    shader: &S,
)
    requires
        points@.len() == 3,
        old(buffer).wf(),
        old(zbuffer).wf(),
        old(zbuffer).width == old(buffer).width,
        old(zbuffer).height == old(buffer).height,
        1 <= old(buffer).width <= 0xffff_ffff,
        1 <= old(buffer).height <= 0xffff_ffff,
        texture.wf(),
        texture.width >= 1,
        texture.height >= 1,
    ensures
        final(buffer).wf(),
        final(buffer).width == old(buffer).width,
        final(buffer).height == old(buffer).height,
        final(zbuffer).wf(),
        final(zbuffer).width == old(zbuffer).width,
        final(zbuffer).height == old(zbuffer).height,
        final(buffer).pixels@ == tri_frame_spec(
            old(buffer).pixels@,
            old(zbuffer).data@,
            old(buffer).width as int,
            old(buffer).height as int,
            points@[0],
            points@[1],
            points@[2],
            *shader,
            *texture,
        ),
        final(zbuffer).data@ == tri_depth_spec(
            old(zbuffer).data@,
            old(buffer).width as int,
            old(buffer).height as int,
            points@[0],
            points@[1],
            points@[2],
        ),
{
    let ghost w = buffer.width as int;
    let ghost h = buffer.height as int;
    let ghost frame0 = buffer.pixels@;
    let ghost zb0 = zbuffer.data@;
    let ghost p0 = points@[0];
    let ghost p1 = points@[1];
    let ghost p2 = points@[2];

    let q0 = crate::vector::project_to_3d(points[0]);
    let q1 = crate::vector::project_to_3d(points[1]);
    let q2 = crate::vector::project_to_3d(points[2]);
    let mut projected: Vec<Fx2> = Vec::new();
    projected.push(Fx2 { x: q0.x, y: q0.y });
    projected.push(Fx2 { x: q1.x, y: q1.y });
    projected.push(Fx2 { x: q2.x, y: q2.y });
    proof {
        assert(projected@ =~= seq![
            tri_projected_spec(p0),
            tri_projected_spec(p1),
            tri_projected_spec(p2),
        ]);
    }

    let (bb_min, bb_max) = find_bounding_box(&projected, buffer);
    let ghost bb = tri_box_spec(p0, p1, p2, w, h);
    let min_x = bb_min.0;
    let min_y = bb_min.1;
    let max_x = bb_max.0;
    let max_y = bb_max.1;

    let mut x = min_x;
    while x <= max_x
        invariant
            buffer.wf(),
            zbuffer.wf(),
            buffer.width == old(buffer).width,
            buffer.height == old(buffer).height,
            zbuffer.width == old(buffer).width,
            zbuffer.height == old(buffer).height,
            w == buffer.width as int,
            h == buffer.height as int,
            1 <= w <= 0xffff_ffff,
            1 <= h <= 0xffff_ffff,
            frame0 == old(buffer).pixels@,
            zb0 == old(zbuffer).data@,
            frame0.len() == w * h,
            zb0.len() == w * h,
            points@.len() == 3,
            p0 == points@[0],
            p1 == points@[1],
            p2 == points@[2],
            texture.wf(),
            texture.width >= 1,
            texture.height >= 1,
            projected@ =~= seq![
                tri_projected_spec(p0),
                tri_projected_spec(p1),
                tri_projected_spec(p2),
            ],
            bb == tri_box_spec(p0, p1, p2, w, h),
            min_x as int == bb.0,
            min_y as int == bb.1,
            max_x as int == bb.2,
            max_y as int == bb.3,
            max_x < buffer.width,
            max_y < buffer.height,
            min_x <= x,
            x <= max_x + 1 || x == min_x,
            forall|i: int|
                0 <= i < frame0.len() ==> #[trigger] buffer.pixels@[i] == (if i % w < x {
                    tri_cell_color_spec(frame0, zb0, w, h, p0, p1, p2, *shader, *texture, i)
                } else {
                    frame0[i]
                }),
            forall|i: int|
                0 <= i < zb0.len() ==> #[trigger] zbuffer.data@[i] == (if i % w < x {
                    tri_cell_depth_spec(zb0, w, h, p0, p1, p2, i)
                } else {
                    zb0[i]
                }),
        decreases max_x + 1 - x,
    {
        let mut y = min_y;
        while y <= max_y
            invariant
                buffer.wf(),
                zbuffer.wf(),
                buffer.width == old(buffer).width,
                buffer.height == old(buffer).height,
                zbuffer.width == old(buffer).width,
                zbuffer.height == old(buffer).height,
                w == buffer.width as int,
                h == buffer.height as int,
                1 <= w <= 0xffff_ffff,
                1 <= h <= 0xffff_ffff,
                frame0 == old(buffer).pixels@,
                zb0 == old(zbuffer).data@,
                frame0.len() == w * h,
                zb0.len() == w * h,
                points@.len() == 3,
                p0 == points@[0],
                p1 == points@[1],
                p2 == points@[2],
                projected@ =~= seq![
                    tri_projected_spec(p0),
                    tri_projected_spec(p1),
                    tri_projected_spec(p2),
                ],
                texture.wf(),
                texture.width >= 1,
                texture.height >= 1,
                bb == tri_box_spec(p0, p1, p2, w, h),
                min_x as int == bb.0,
                min_y as int == bb.1,
                max_x as int == bb.2,
                max_y as int == bb.3,
                max_x < buffer.width,
                max_y < buffer.height,
                min_x <= x <= max_x,
                min_y <= y,
                y <= max_y + 1 || y == min_y,
                forall|i: int|
                    0 <= i < frame0.len() ==> #[trigger] buffer.pixels@[i] == (if i % w < x || (i
                        % w == x && i / w < y) {
                        tri_cell_color_spec(frame0, zb0, w, h, p0, p1, p2, *shader, *texture, i)
                    } else {
                        frame0[i]
                    }),
                forall|i: int|
                    0 <= i < zb0.len() ==> #[trigger] zbuffer.data@[i] == (if i % w < x || (i % w
                        == x && i / w < y) {
                        tri_cell_depth_spec(zb0, w, h, p0, p1, p2, i)
                    } else {
                        zb0[i]
                    }),
            decreases max_y + 1 - y,
        {
            let ghost idx = grid_index(x as int, y as int, w);
            proof {
                lemma_grid_index_bounds(x as int, y as int, w, h);
                lemma_grid_coords(x as int, y as int, w);
            }
            let point = Fx4 {
                x: Fx::from_int(x as i64),
                y: Fx::from_int(y as i64),
                z: Fx::zero(),
                w: Fx::zero(),
            };
            let coordinate = find_barycentric(&projected, &point);
            let z_current = zbuffer.get_depth(x, y);
            let depth = interpolate_depth(points[0], points[1], points[2], &coordinate);
            proof {
                assert(coordinate == tri_pixel_bary_spec(p0, p1, p2, x as int, y as int));
                assert(z_current == zb0[idx]);
            }
            if coordinate.n0 >= 0 && coordinate.n1 >= 0 && coordinate.n2 >= 0 && z_current
                < depth {
                let color = shader.fragment(coordinate, texture);
                zbuffer.put_depth(x, y, depth);
                buffer.put_pixel(x, y, color);
                proof {
                    assert(tri_covered_spec(p0, p1, p2, x as int, y as int, zb0[idx] as int));
                    assert(buffer.pixels@[idx] == tri_cell_color_spec(
                        frame0,
                        zb0,
                        w,
                        h,
                        p0,
                        p1,
                        p2,
                        *shader,
                        *texture,
                        idx,
                    ));
                    assert(zbuffer.data@[idx] == tri_cell_depth_spec(zb0, w, h, p0, p1, p2, idx));
                }
            } else {
                proof {
                    assert(!tri_covered_spec(p0, p1, p2, x as int, y as int, zb0[idx] as int));
                    assert(buffer.pixels@[idx] == tri_cell_color_spec(
                        frame0,
                        zb0,
                        w,
                        h,
                        p0,
                        p1,
                        p2,
                        *shader,
                        *texture,
                        idx,
                    ));
                }
            }
            proof {
                // Any other cell keeps its previous classification: a cell
                // shares this flat index only if it is this very pixel.
                assert forall|i: int| 0 <= i < frame0.len() && i != idx implies #[trigger] (i % w)
                    != x as int || i / w != y as int by {
                    vstd::arithmetic::div_mod::lemma_fundamental_div_mod(i, w);
                    if i % w == x as int && i / w == y as int {
                        assert(i == w * (i / w) + i % w);
                        assert(w * (i / w) == (y as int) * w) by (nonlinear_arith)
                            requires
                                i / w == y as int,
                        ;
                        assert(false);
                    }
                }
            }
            y = y + 1;
        }
        proof {
            assert forall|i: int| 0 <= i < frame0.len() implies (#[trigger] (i % w) < x + 1) == (i
                % w < x || (i % w == x && i / w < max_y + 1)) || (i % w == x && i / w > max_y as int
                && !tri_in_box_spec(p0, p1, p2, w, h, i % w, i / w)) by {
                vstd::arithmetic::div_mod::lemma_fundamental_div_mod(i, w);
                vstd::arithmetic::div_mod::lemma_mod_bound(i, w);
            }
        }
        x = x + 1;
    }
    proof {
        assert forall|i: int| 0 <= i < frame0.len() implies buffer.pixels@[i]
            == tri_cell_color_spec(frame0, zb0, w, h, p0, p1, p2, *shader, *texture, i) by {
            vstd::arithmetic::div_mod::lemma_mod_bound(i, w);
            if !(i % w < x) {
                assert(i % w > max_x as int);
                assert(!tri_in_box_spec(p0, p1, p2, w, h, i % w, i / w));
            }
        }
        assert forall|i: int| 0 <= i < zb0.len() implies zbuffer.data@[i] == tri_cell_depth_spec(
            zb0,
            w,
            h,
            p0,
            p1,
            p2,
            i,
        ) by {
            vstd::arithmetic::div_mod::lemma_mod_bound(i, w);
            if !(i % w < x) {
                assert(i % w > max_x as int);
                assert(!tri_in_box_spec(p0, p1, p2, w, h, i % w, i / w));
            }
        }
        assert(buffer.pixels@ =~= tri_frame_spec(
            frame0,
            zb0,
            w,
            h,
            p0,
            p1,
            p2,
            *shader,
            *texture,
        ));
        assert(zbuffer.data@ =~= tri_depth_spec(zb0, w, h, p0, p1, p2));
    }
}

/// The wireframe color.
pub open spec fn white_spec() -> Rgb {
    Rgb { r: 255, g: 255, b: 255 }
}

/// A mesh coordinate in [-1, 1] mapped onto an axis of `size` pixels:
/// `(v + 1) * size / 2`, truncated, clamped into the axis.
pub open spec fn wire_px_spec(v: int, size: int) -> int {
    let t = tdiv((v + SCALE as int) * size, 2 * SCALE as int);
    if t < 0 {
        0
    } else if t > size - 1 {
        size - 1
    } else {
        t
    }
}

fn wire_px(v: Fx, size: usize) -> (r: usize)
    requires
        1 <= size <= 0xffff_ffff,
    ensures
        r as int == wire_px_spec(v.v(), size as int),
        r < size,
{
    proof {
        assert(i128::MIN < ((v.raw as int) + (SCALE as int)) * (size as int) <= i128::MAX)
            by (nonlinear_arith)
            requires
                i64::MIN <= v.raw <= i64::MAX,
                1 <= size <= 0xffff_ffff,
        ;
    }
    let a = (v.raw as i128) + (SCALE as i128);
    let p = a * (size as i128);
    let t = tdiv_i128(p, 2 * (SCALE as i128));
    if t < 0 {
        0
    } else if t > (size - 1) as i128 {
        size - 1
    } else {
        t as usize
    }
}

/// The frame after one edge of a face is drawn: the line between corner `e`
/// and corner `(e + 1) % 3`, both mapped from [-1, 1] onto the buffer.
pub open spec fn wire_edge_frame_spec(
    mesh: Object,
    frame: Seq<Rgb>,
    w: int,
    h: int,
    fi: int,
    e: int,
) -> Seq<Rgb> {
    let face = mesh.geometric_faces@[fi];
    let va = mesh.geometric_vertices@[face.idx(e)];
    let vb = mesh.geometric_vertices@[face.idx(
        if e == 2 {
            0
        } else {
            e + 1
        },
    )];
    let xa = wire_px_spec(va.x.v(), w);
    let ya = wire_px_spec(va.y.v(), h);
    let xb = wire_px_spec(vb.x.v(), w);
    let yb = wire_px_spec(vb.y.v(), h);
    paint_line_spec(frame, w, xa, ya, xb, yb, white_spec(), line_pixel_count_spec(xa, ya, xb, yb))
}

/// The frame after all three edges of face `fi` are drawn.
pub open spec fn wire_face_frame_spec(mesh: Object, frame: Seq<Rgb>, w: int, h: int, fi: int) -> Seq<
    Rgb,
> {
    wire_edge_frame_spec(
        mesh,
        wire_edge_frame_spec(mesh, wire_edge_frame_spec(mesh, frame, w, h, fi, 0), w, h, fi, 1),
        w,
        h,
        fi,
        2,
    )
}

/// The frame after the first `n` faces' wireframes are drawn.
pub open spec fn wire_mesh_frame_spec(mesh: Object, frame: Seq<Rgb>, w: int, h: int, n: nat) -> Seq<
    Rgb,
>
    decreases n,
{
    if n == 0 {
        frame
    } else {
        wire_face_frame_spec(
            mesh,
            wire_mesh_frame_spec(mesh, frame, w, h, (n - 1) as nat),
            w,
            h,
            n - 1,
        )
    }
}

/// Draw the mesh as a white wireframe: for each face, the three edges
/// between its corners, mapped from the canonical [-1, 1] square onto the
/// buffer and clamped to it.
pub fn draw_wire_mesh(coordinates: &Object, buffer: &mut Image)
    requires
        coordinates.wf(),
        old(buffer).wf(),
        1 <= old(buffer).width <= 0xffff_ffff,
        1 <= old(buffer).height <= 0xffff_ffff,
    ensures
        final(buffer).wf(),
        final(buffer).width == old(buffer).width,
        final(buffer).height == old(buffer).height,
        final(buffer).pixels@ == wire_mesh_frame_spec(
            *coordinates,
            old(buffer).pixels@,
            old(buffer).width as int,
            old(buffer).height as int,
            coordinates.geometric_faces@.len(),
        ),
{
    let ghost w = buffer.width as int;
    let ghost h = buffer.height as int;
    let ghost frame0 = buffer.pixels@;
    let width = buffer.width();
    let height = buffer.height();
    let n = coordinates.face_count();
    let mut fi: usize = 0;
    while fi < n
        invariant
            coordinates.wf(),
            buffer.wf(),
            buffer.width == old(buffer).width,
            buffer.height == old(buffer).height,
            w == buffer.width as int,
            h == buffer.height as int,
            width == buffer.width,
            height == buffer.height,
            1 <= w <= 0xffff_ffff,
            1 <= h <= 0xffff_ffff,
            frame0 == old(buffer).pixels@,
            n == coordinates.geometric_faces@.len(),
            fi <= n,
            buffer.pixels@ == wire_mesh_frame_spec(*coordinates, frame0, w, h, fi as nat),
        decreases n - fi,
    {
        let face = coordinates.geometric_faces[fi];
        let i0 = face.get(0);
        let i1 = face.get(1);
        let i2 = face.get(2);
        proof {
            assert(crate::wavefront::face_in_range(
                coordinates.geometric_faces@[fi as int],
                coordinates.geometric_vertices@.len() as int,
            ));
        }
        let v0 = coordinates.geometric_vertices[i0];
        let v1 = coordinates.geometric_vertices[i1];
        let v2 = coordinates.geometric_vertices[i2];
        let x0 = wire_px(v0.x, width);
        let y0 = wire_px(v0.y, height);
        let x1 = wire_px(v1.x, width);
        let y1 = wire_px(v1.y, height);
        let x2 = wire_px(v2.x, width);
        let y2 = wire_px(v2.y, height);
        let white = Rgb { r: 255, g: 255, b: 255 };
        draw_line(x0, y0, x1, y1, buffer, white);
        proof {
            assert(buffer.pixels@ == wire_edge_frame_spec(
                *coordinates,
                wire_mesh_frame_spec(*coordinates, frame0, w, h, fi as nat),
                w,
                h,
                fi as int,
                0,
            ));
        }
        draw_line(x1, y1, x2, y2, buffer, white);
        proof {
            assert(buffer.pixels@ == wire_edge_frame_spec(
                *coordinates,
                wire_edge_frame_spec(
                    *coordinates,
                    wire_mesh_frame_spec(*coordinates, frame0, w, h, fi as nat),
                    w,
                    h,
                    fi as int,
                    0,
                ),
                w,
                h,
                fi as int,
                1,
            ));
        }
        draw_line(x2, y2, x0, y0, buffer, white);
        proof {
            assert(buffer.pixels@ == wire_face_frame_spec(
                *coordinates,
                wire_mesh_frame_spec(*coordinates, frame0, w, h, fi as nat),
                w,
                h,
                fi as int,
            ));
            assert(buffer.pixels@ == wire_mesh_frame_spec(
                *coordinates,
                frame0,
                w,
                h,
                (fi + 1) as nat,
            ));
        }
        fi = fi + 1;
    }
}

/// A depth buffer cleared to the sentinel, as a sequence.
pub open spec fn depth_clear_spec(w: int, h: int) -> Seq<i64> {
    Seq::new((w * h) as nat, |i: int| (-(SCALE as int)) as i64)
}

/// A Gouraud shading frame before any corner is recorded.
pub open spec fn gouraud_zero_spec() -> GouraudShader {
    GouraudShader {
        varying_intensity: zero3_spec(),
        varying_texture: Mat2x3 { c0: zero2_spec(), c1: zero2_spec(), c2: zero2_spec() },
    }
}

/// The shading frame of face `fi` after its three vertex-stage calls.
pub open spec fn face_shader_spec(
    mesh: Object,
    vp: Mat4,
    proj: Mat4,
    mv: Mat4,
    light: Fx3,
    fi: int,
) -> GouraudShader {
    gouraud_zero_spec().vertex_next_spec(mesh, vp, proj, mv, light, fi, 0).vertex_next_spec(
        mesh,
        vp,
        proj,
        mv,
        light,
        fi,
        1,
    ).vertex_next_spec(mesh, vp, proj, mv, light, fi, 2)
}

/// Both buffers after the first `n` faces are rasterized, face by face: each
/// face runs its three vertex calls and is then filled and depth-tested.
pub open spec fn mesh_pass_spec(
    mesh: Object,
    frame: Seq<Rgb>,
    zb: Seq<i64>,
    w: int,
    h: int,
    tex: Image,
    vp: Mat4,
    proj: Mat4,
    mv: Mat4,
    light: Fx3,
    n: nat,
) -> (Seq<Rgb>, Seq<i64>)
    decreases n,
{
    if n == 0 {
        (frame, zb)
    } else {
        let prev = mesh_pass_spec(mesh, frame, zb, w, h, tex, vp, proj, mv, light, (n - 1) as nat);
        let fi = n - 1;
        let sh = face_shader_spec(mesh, vp, proj, mv, light, fi as int);
        let q0 = screen_position_spec(mesh, vp, proj, mv, fi as int, 0);
        let q1 = screen_position_spec(mesh, vp, proj, mv, fi as int, 1);
        let q2 = screen_position_spec(mesh, vp, proj, mv, fi as int, 2);
        (
            tri_frame_spec(prev.0, prev.1, w, h, q0, q1, q2, sh, tex),
            tri_depth_spec(prev.1, w, h, q0, q1, q2),
        )
    }
}

/// The pinhole coefficient of the render: `-1 / |eye - center|`.
pub open spec fn mesh_coefficient_spec(eye: Fx3, center: Fx3) -> Fx {
    fx_of(fx_div(fx_neg(SCALE as int), v3_norm_spec(v3_sub_spec(eye, center))))
}

/// The viewport of the render: a margin of one eighth of the buffer on each
/// side, three quarters of the buffer for the picture.
pub open spec fn mesh_viewport_spec(w: int, h: int, depth: int) -> Mat4 {
    viewport_spec(w / 8, h / 8, w * 3 / 4, h * 3 / 4, depth)
}

/// Render the mesh with Gouraud shading: build the three transforms from the
/// camera parameters, then rasterize face by face with depth testing. The
/// frame buffer is drawn in place; the depth buffer of the pass is returned.
/// Both final buffers are pinned exactly by `mesh_pass_spec`, so the render
/// is a function of its inputs alone.
pub fn draw_triangle_mesh(
    coordinates: &Object,
    buffer: &mut Image,
    texture: &Image,
    depth: u32,
    light_vector: &Fx3,
    eye: &Fx3,
    center: &Fx3,
    up: &Fx3,
) -> (zbuffer: DepthBuffer)
    requires
        coordinates.wf(),
        old(buffer).wf(),
        1 <= old(buffer).width <= 0xffff_ffff,
        1 <= old(buffer).height <= 0xffff_ffff,
        texture.wf(),
        texture.width >= 1,
        texture.height >= 1,
    ensures
        final(buffer).wf(),
        final(buffer).width == old(buffer).width,
        final(buffer).height == old(buffer).height,
        zbuffer.wf(),
        zbuffer.width == old(buffer).width,
        zbuffer.height == old(buffer).height,
        ({
            let w = old(buffer).width as int;
            let h = old(buffer).height as int;
            let out = mesh_pass_spec(
                *coordinates,
                old(buffer).pixels@,
                depth_clear_spec(w, h),
                w,
                h,
                *texture,
                mesh_viewport_spec(w, h, depth as int),
                projection_spec(mesh_coefficient_spec(*eye, *center)),
                lookat_spec(*eye, *center, *up),
                *light_vector,
                coordinates.geometric_faces@.len(),
            );
            final(buffer).pixels@ == out.0 && zbuffer.data@ == out.1
        }),
{
    let ghost w = buffer.width as int;
    let ghost h = buffer.height as int;
    let ghost frame0 = buffer.pixels@;
    let width = buffer.width();
    let height = buffer.height();

    let mut zbuffer = DepthBuffer::new(width, height);
    proof {
        assert(zbuffer.data@ =~= depth_clear_spec(w, h));
    }

    let model_view = lookat(eye, center, up);
    let coefficient = Fx { raw: -SCALE }.div(eye.sub(*center).norm());
    let projection_matrix = projection(coefficient);
    let vx = (width / 8) as u32;
    let vy = (height / 8) as u32;
    let vw = ((width as u64) * 3 / 4) as u32;
    let vh = ((height as u64) * 3 / 4) as u32;
    let view_port = viewport(vx, vy, vw, vh, depth);
    proof {
        assert(model_view == lookat_spec(*eye, *center, *up));
        assert(coefficient == mesh_coefficient_spec(*eye, *center));
        assert(view_port == mesh_viewport_spec(w, h, depth as int));
    }
    let ghost vp = view_port;
    let ghost pj = projection_matrix;
    let ghost mv = model_view;
    let ghost zb0 = zbuffer.data@;

    let n = coordinates.face_count();
    let mut face_index: usize = 0;
    while face_index < n
        invariant
            coordinates.wf(),
            buffer.wf(),
            zbuffer.wf(),
            buffer.width == old(buffer).width,
            buffer.height == old(buffer).height,
            zbuffer.width == old(buffer).width,
            zbuffer.height == old(buffer).height,
            w == buffer.width as int,
            h == buffer.height as int,
            1 <= w <= 0xffff_ffff,
            1 <= h <= 0xffff_ffff,
            frame0 == old(buffer).pixels@,
            zb0 == depth_clear_spec(w, h),
            texture.wf(),
            texture.width >= 1,
            texture.height >= 1,
            n == coordinates.geometric_faces@.len(),
            face_index <= n,
            vp == mesh_viewport_spec(w, h, depth as int),
            pj == projection_spec(mesh_coefficient_spec(*eye, *center)),
            mv == lookat_spec(*eye, *center, *up),
            vp == view_port,
            pj == projection_matrix,
            mv == model_view,
            (buffer.pixels@, zbuffer.data@) == mesh_pass_spec(
                *coordinates,
                frame0,
                zb0,
                w,
                h,
                *texture,
                vp,
                pj,
                mv,
                *light_vector,
                face_index as nat,
            ),
        decreases n - face_index,
    {
        let mut shader = GouraudShader::new();
        let mut screen_coordinates: Vec<Fx4> = Vec::new();
        let s0 = shader.vertex(
            coordinates,
            &view_port,
            &projection_matrix,
            &model_view,
            light_vector,
            face_index,
            0,
        );
        screen_coordinates.push(s0);
        let s1 = shader.vertex(
            coordinates,
            &view_port,
            &projection_matrix,
            &model_view,
            light_vector,
            face_index,
            1,
        );
        screen_coordinates.push(s1);
        let s2 = shader.vertex(
            coordinates,
            &view_port,
            &projection_matrix,
            &model_view,
            light_vector,
            face_index,
            2,
        );
        screen_coordinates.push(s2);
        proof {
            assert(shader == face_shader_spec(
                *coordinates,
                vp,
                pj,
                mv,
                *light_vector,
                face_index as int,
            ));
            assert(screen_coordinates@.len() == 3);
            assert(screen_coordinates@[0] == screen_position_spec(
                *coordinates,
                vp,
                pj,
                mv,
                face_index as int,
                0,
            ));
        }
        draw_triangle(&screen_coordinates, buffer, texture, &mut zbuffer, &shader);
        proof {
            assert((buffer.pixels@, zbuffer.data@) == mesh_pass_spec(
                *coordinates,
                frame0,
                zb0,
                w,
                h,
                *texture,
                vp,
                pj,
                mv,
                *light_vector,
                (face_index + 1) as nat,
            ));
        }
        face_index = face_index + 1;
    }
    zbuffer
}

/// A linear-interpolation offset stays between 0 and its span: for
/// `0 <= i <= t`, `d * i / t` lies between 0 and `d`.
pub proof fn lemma_lerp_bounds(d: int, i: int, t: int)
    requires
        0 <= i <= t,
        1 <= t,
    ensures
        d >= 0 ==> 0 <= tdiv(d * i, t) <= d,
        d < 0 ==> d <= tdiv(d * i, t) <= 0,
{
    if d >= 0 {
        assert(d * i >= 0) by (nonlinear_arith)
            requires
                d >= 0 && i >= 0,
        ;
        if d * i > 0 {
            vstd::arithmetic::div_mod::lemma_div_pos_is_pos(d * i, t);
            vstd::arithmetic::mul::lemma_mul_inequality(i, t, d);
            vstd::arithmetic::div_mod::lemma_div_is_ordered(i * d, t * d, t);
            vstd::arithmetic::div_mod::lemma_div_by_multiple(d, t);
        }
    } else {
        let e = -d;
        assert(e * i == -(d * i) && e * i >= 0) by (nonlinear_arith)
            requires
                e == -d && d < 0 && i >= 0,
        ;
        if i > 0 {
            assert(d * i < 0) by (nonlinear_arith)
                requires
                    d < 0 && i > 0,
            ;
            vstd::arithmetic::div_mod::lemma_div_pos_is_pos(e * i, t);
            vstd::arithmetic::mul::lemma_mul_inequality(i, t, e);
            vstd::arithmetic::div_mod::lemma_div_is_ordered(i * e, t * e, t);
            vstd::arithmetic::div_mod::lemma_div_by_multiple(e, t);
            assert((d * i) * -1 == e * i) by (nonlinear_arith)
                requires
                    e == -d,
            ;
            assert(tdiv(d * i, t) == ((e * i) / t) * -1);
            assert(i * e == e * i) by (nonlinear_arith);
            assert(t * e == e * t) by (nonlinear_arith);
        } else {
            assert(d * i == 0) by (nonlinear_arith)
                requires
                    i == 0,
            ;
            assert(tdiv(d * i, t) == 0);
        }
    }
}

/// A coordinate interpolated between `base` (at step 0) and `target` (at
/// step `t`), truncated toward zero; it stays between the two.
fn lerp_coord(base: usize, target: usize, i: usize, t: usize) -> (r: usize)
    requires
        1 <= t <= 0xffff_ffff,
        i <= t,
        base <= 0xffff_ffff,
        target <= 0xffff_ffff,
    ensures
        r as int == base + tdiv((target - base) * i, t as int),
        min_int(base as int, target as int) <= r as int <= max_int(base as int, target as int),
{
    let d = (target as i128) - (base as i128);
    proof {
        assert(i128::MIN < d * (i as int) <= i128::MAX) by (nonlinear_arith)
            requires
                -0x1_0000_0000 <= d <= 0x1_0000_0000 && 0 <= i <= 0x1_0000_0000,
        ;
        lemma_lerp_bounds(d as int, i as int, t as int);
    }
    let q = tdiv_i128(d * (i as i128), t as i128);
    let rr = (base as i128) + q;
    rr as usize
}

/// The three corners sorted by ascending y, with the original tie-breaking:
/// three conditional exchanges.
pub open spec fn sort3_by_y_spec(t0: (int, int), t1: (int, int), t2: (int, int)) -> (
    (int, int),
    (int, int),
    (int, int),
) {
    let a = if t0.1 > t1.1 {
        (t1, t0)
    } else {
        (t0, t1)
    };
    let b = if a.0.1 > t2.1 {
        (t2, a.0)
    } else {
        (a.0, t2)
    };
    let c = if a.1.1 > b.1.1 {
        (b.1, a.1)
    } else {
        (a.1, b.1)
    };
    (b.0, c.0, c.1)
}

/// The left boundary at scanline offset `i`: the long edge from the lowest
/// to the highest corner, interpolated.
pub open spec fn fill_a_spec(s0: (int, int), s2: (int, int), i: int) -> int {
    s0.0 + tdiv((s2.0 - s0.0) * i, s2.1 - s0.1)
}

/// Whether scanline offset `i` lies in the upper segment of the triangle.
pub open spec fn fill_second_half_spec(s0: (int, int), s1: (int, int), i: int) -> bool {
    i > s1.1 - s0.1 || s1.1 == s0.1
}

/// The right boundary at scanline offset `i`: the short edge of whichever
/// segment the scanline crosses, interpolated.
pub open spec fn fill_b_spec(s0: (int, int), s1: (int, int), s2: (int, int), i: int) -> int {
    if fill_second_half_spec(s0, s1, i) {
        s1.0 + tdiv((s2.0 - s1.0) * (i - (s1.1 - s0.1)), s2.1 - s1.1)
    } else {
        s0.0 + tdiv((s1.0 - s0.0) * i, s1.1 - s0.1)
    }
}

/// Whether `fill_triangle` paints pixel `(x, y)`: its row crosses the
/// triangle's y range, and it lies between the two boundaries of its row.
pub open spec fn fill_covers_spec(
    t0: (int, int),
    t1: (int, int),
    t2: (int, int),
    x: int,
    y: int,
) -> bool {
    let s = sort3_by_y_spec(t0, t1, t2);
    let i = y - s.0.1;
    let a = fill_a_spec(s.0, s.2, i);
    let b = fill_b_spec(s.0, s.1, s.2, i);
    0 <= i < s.2.1 - s.0.1 && min_int(a, b) <= x <= max_int(a, b)
}

/// One frame-buffer cell after the filled triangle.
pub open spec fn fill_cell_spec(
    frame: Seq<Rgb>,
    w: int,
    t0: (int, int),
    t1: (int, int),
    t2: (int, int),
    color: Rgb,
    idx: int,
) -> Rgb {
    if fill_covers_spec(t0, t1, t2, idx % w, idx / w) {
        color
    } else {
        frame[idx]
    }
}

/// The whole frame after the filled triangle, cell by cell.
pub open spec fn fill_frame_spec(
    frame: Seq<Rgb>,
    w: int,
    t0: (int, int),
    t1: (int, int),
    t2: (int, int),
    color: Rgb,
) -> Seq<Rgb> {
    Seq::new(frame.len(), |idx: int| fill_cell_spec(frame, w, t0, t1, t2, color, idx))
}

/// Fill the triangle with corners `t0`, `t1` and `t2` in the given color, by
/// scanline: the corners are sorted by y, and each row between the lowest
/// and highest corner is painted between the long edge and the segment edge.
/// The contract pins the result cell by cell through `fill_covers_spec`.
pub fn fill_triangle(
    t0: (usize, usize),
    t1: (usize, usize),
    t2: (usize, usize),
    buffer: &mut Image,
    color: Rgb,
)
    requires
        old(buffer).wf(),
        1 <= old(buffer).width <= 0xffff_ffff,
        1 <= old(buffer).height <= 0xffff_ffff,
        t0.0 < old(buffer).width,
        t1.0 < old(buffer).width,
        t2.0 < old(buffer).width,
        t0.1 < old(buffer).height,
        t1.1 < old(buffer).height,
        t2.1 < old(buffer).height,
    ensures
        final(buffer).wf(),
        final(buffer).width == old(buffer).width,
        final(buffer).height == old(buffer).height,
        final(buffer).pixels@ == fill_frame_spec(
            old(buffer).pixels@,
            old(buffer).width as int,
            (t0.0 as int, t0.1 as int),
            (t1.0 as int, t1.1 as int),
            (t2.0 as int, t2.1 as int),
            color,
        ),
{
    let ghost w = buffer.width as int;
    let ghost h = buffer.height as int;
    let ghost frame0 = buffer.pixels@;
    let ghost g0 = (t0.0 as int, t0.1 as int);
    let ghost g1 = (t1.0 as int, t1.1 as int);
    let ghost g2 = (t2.0 as int, t2.1 as int);
    let ghost s = sort3_by_y_spec(g0, g1, g2);

    let (mut p0, mut p1, mut p2) = (t0, t1, t2);
    if p0.1 > p1.1 {
        let tmp = p0;
        p0 = p1;
        p1 = tmp;
    }
    if p0.1 > p2.1 {
        let tmp = p0;
        p0 = p2;
        p2 = tmp;
    }
    if p1.1 > p2.1 {
        let tmp = p1;
        p1 = p2;
        p2 = tmp;
    }
    proof {
        assert((p0.0 as int, p0.1 as int) == s.0);
        assert((p1.0 as int, p1.1 as int) == s.1);
        assert((p2.0 as int, p2.1 as int) == s.2);
    }

    let triangle_height = p2.1 - p0.1;
    let mut i: usize = 0;
    while i < triangle_height
        invariant
            buffer.wf(),
            buffer.width == old(buffer).width,
            buffer.height == old(buffer).height,
            w == buffer.width as int,
            h == buffer.height as int,
            1 <= w <= 0xffff_ffff,
            1 <= h <= 0xffff_ffff,
            frame0 == old(buffer).pixels@,
            frame0.len() == w * h,
            s == sort3_by_y_spec(g0, g1, g2),
            (p0.0 as int, p0.1 as int) == s.0,
            (p1.0 as int, p1.1 as int) == s.1,
            (p2.0 as int, p2.1 as int) == s.2,
            p0.1 <= p1.1 <= p2.1,
            p0.0 < buffer.width,
            p1.0 < buffer.width,
            p2.0 < buffer.width,
            p0.1 < buffer.height,
            p1.1 < buffer.height,
            p2.1 < buffer.height,
            triangle_height == p2.1 - p0.1,
            i <= triangle_height,
            forall|idx: int|
                0 <= idx < frame0.len() ==> #[trigger] buffer.pixels@[idx] == (if idx / w < p0.1
                    + i {
                    fill_cell_spec(frame0, w, g0, g1, g2, color, idx)
                } else {
                    frame0[idx]
                }),
        decreases triangle_height - i,
    {
        let second_half = i > p1.1 - p0.1 || p1.1 == p0.1;
        let a = lerp_coord(p0.0, p2.0, i, triangle_height);
        let b = if second_half {
            lerp_coord(p1.0, p2.0, i - (p1.1 - p0.1), p2.1 - p1.1)
        } else {
            lerp_coord(p0.0, p1.0, i, p1.1 - p0.1)
        };
        proof {
            assert(a as int == fill_a_spec(s.0, s.2, i as int));
            assert(b as int == fill_b_spec(s.0, s.1, s.2, i as int));
        }
        let ghost lo_s = min_int(a as int, b as int);
        let ghost hi_s = max_int(a as int, b as int);
        let (lo, hi) = if a > b {
            (b, a)
        } else {
            (a, b)
        };
        let yrow = p0.1 + i;
        let mut j = lo;
        while j <= hi
            invariant
                buffer.wf(),
                buffer.width == old(buffer).width,
                buffer.height == old(buffer).height,
                w == buffer.width as int,
                h == buffer.height as int,
                1 <= w <= 0xffff_ffff,
                1 <= h <= 0xffff_ffff,
                frame0 == old(buffer).pixels@,
                frame0.len() == w * h,
                s == sort3_by_y_spec(g0, g1, g2),
                (p0.0 as int, p0.1 as int) == s.0,
                (p1.0 as int, p1.1 as int) == s.1,
                (p2.0 as int, p2.1 as int) == s.2,
                p0.1 <= p1.1 <= p2.1,
                triangle_height == p2.1 - p0.1,
                i < triangle_height,
                yrow == p0.1 + i,
                yrow < buffer.height,
                lo_s == min_int(
                    fill_a_spec(s.0, s.2, i as int),
                    fill_b_spec(s.0, s.1, s.2, i as int),
                ),
                hi_s == max_int(
                    fill_a_spec(s.0, s.2, i as int),
                    fill_b_spec(s.0, s.1, s.2, i as int),
                ),
                lo as int == lo_s,
                hi as int == hi_s,
                hi < buffer.width,
                lo <= j,
                j <= hi + 1 || j == lo,
                forall|idx: int|
                    0 <= idx < frame0.len() ==> #[trigger] buffer.pixels@[idx] == (if idx / w < yrow
                        || (idx / w == yrow && idx % w < j) {
                        fill_cell_spec(frame0, w, g0, g1, g2, color, idx)
                    } else {
                        frame0[idx]
                    }),
            decreases hi + 1 - j,
        {
            let ghost idx = grid_index(j as int, yrow as int, w);
            proof {
                lemma_grid_index_bounds(j as int, yrow as int, w, h);
                lemma_grid_coords(j as int, yrow as int, w);
                assert(fill_covers_spec(g0, g1, g2, j as int, yrow as int));
            }
            buffer.put_pixel(j, yrow, color);
            proof {
                assert(buffer.pixels@[idx] == fill_cell_spec(frame0, w, g0, g1, g2, color, idx));
                assert forall|k: int| 0 <= k < frame0.len() && k != idx implies #[trigger] (k % w)
                    != j as int || k / w != yrow as int by {
                    vstd::arithmetic::div_mod::lemma_fundamental_div_mod(k, w);
                    if k % w == j as int && k / w == yrow as int {
                        assert(k == w * (k / w) + k % w);
                        assert(w * (k / w) == (yrow as int) * w) by (nonlinear_arith)
                            requires
                                k / w == yrow as int,
                        ;
                        assert(false);
                    }
                }
            }
            j = j + 1;
        }
        proof {
            // The row is complete: cells right of `hi` were never painted,
            // and are not covered.
            assert forall|idx: int| 0 <= idx < frame0.len() implies (#[trigger] (idx / w) < yrow
                + 1) == (idx / w < yrow || (idx / w == yrow && idx % w < j)) || (idx / w == yrow
                && idx % w > hi_s && !fill_covers_spec(g0, g1, g2, idx % w, idx / w)) by {
                vstd::arithmetic::div_mod::lemma_fundamental_div_mod(idx, w);
                vstd::arithmetic::div_mod::lemma_mod_bound(idx, w);
            }
        }
        i = i + 1;
    }
    proof {
        assert forall|idx: int| 0 <= idx < frame0.len() implies buffer.pixels@[idx]
            == fill_cell_spec(frame0, w, g0, g1, g2, color, idx) by {
            vstd::arithmetic::div_mod::lemma_mod_bound(idx, w);
            vstd::arithmetic::div_mod::lemma_fundamental_div_mod(idx, w);
            if !(idx / w < p0.1 + i) {
                assert(idx / w - s.0.1 >= i);
                assert(!fill_covers_spec(g0, g1, g2, idx % w, idx / w));
            }
        }
        assert(buffer.pixels@ =~= fill_frame_spec(frame0, w, g0, g1, g2, color));
    }
}

/// Law: one triangle never lowers a depth-buffer cell. A cell is rewritten
/// only when the incoming fragment's depth is strictly greater (closer) than
/// the value the cell held.
pub proof fn lemma_triangle_depth_monotonic(
    zb: Seq<i64>,
    w: int,
    h: int,
    p0: Fx4,
    p1: Fx4,
    p2: Fx4,
)
    ensures
        tri_depth_spec(zb, w, h, p0, p1, p2).len() == zb.len(),
        forall|i: int|
            0 <= i < zb.len() ==> #[trigger] tri_depth_spec(zb, w, h, p0, p1, p2)[i] >= zb[i],
{
    assert forall|i: int| 0 <= i < zb.len() implies #[trigger] tri_depth_spec(
        zb,
        w,
        h,
        p0,
        p1,
        p2,
    )[i] >= zb[i] by {
        assert(tri_depth_spec(zb, w, h, p0, p1, p2)[i] == tri_cell_depth_spec(
            zb,
            w,
            h,
            p0,
            p1,
            p2,
            i,
        ));
    }
}

/// Law: through a whole render pass, every depth-buffer cell is
/// monotonically non-decreasing: no later triangle overwrites a pixel with a
/// farther fragment.
pub proof fn lemma_render_depth_monotonic(
    mesh: Object,
    frame: Seq<Rgb>,
    zb: Seq<i64>,
    w: int,
    h: int,
    tex: Image,
    vp: Mat4,
    proj: Mat4,
    mv: Mat4,
    light: Fx3,
    n: nat,
)
    ensures
        mesh_pass_spec(mesh, frame, zb, w, h, tex, vp, proj, mv, light, n).1.len() == zb.len(),
        forall|i: int|
            0 <= i < zb.len() ==> #[trigger] mesh_pass_spec(
                mesh,
                frame,
                zb,
                w,
                h,
                tex,
                vp,
                proj,
                mv,
                light,
                n,
            ).1[i] >= zb[i],
    decreases n,
{
    if n > 0 {
        lemma_render_depth_monotonic(mesh, frame, zb, w, h, tex, vp, proj, mv, light, (n - 1) as nat);
        let prev = mesh_pass_spec(mesh, frame, zb, w, h, tex, vp, proj, mv, light, (n - 1) as nat);
        let fi = (n - 1) as int;
        let q0 = screen_position_spec(mesh, vp, proj, mv, fi, 0);
        let q1 = screen_position_spec(mesh, vp, proj, mv, fi, 1);
        let q2 = screen_position_spec(mesh, vp, proj, mv, fi, 2);
        lemma_triangle_depth_monotonic(prev.1, w, h, q0, q1, q2);
    }
}

/// Law: the depth buffer is monotone at every step of the pass as well:
/// rasterizing one more face never lowers a cell.
pub proof fn lemma_render_depth_step(
    mesh: Object,
    frame: Seq<Rgb>,
    zb: Seq<i64>,
    w: int,
    h: int,
    tex: Image,
    vp: Mat4,
    proj: Mat4,
    mv: Mat4,
    light: Fx3,
    n: nat,
)
    requires
        n >= 1,
    ensures
        forall|i: int|
            0 <= i < mesh_pass_spec(mesh, frame, zb, w, h, tex, vp, proj, mv, light, (n - 1) as nat).1.len()
                ==> #[trigger] mesh_pass_spec(mesh, frame, zb, w, h, tex, vp, proj, mv, light, n).1[i]
                >= mesh_pass_spec(mesh, frame, zb, w, h, tex, vp, proj, mv, light, (n - 1) as nat).1[i],
{
    let prev = mesh_pass_spec(mesh, frame, zb, w, h, tex, vp, proj, mv, light, (n - 1) as nat);
    let fi = (n - 1) as int;
    let q0 = screen_position_spec(mesh, vp, proj, mv, fi, 0);
    let q1 = screen_position_spec(mesh, vp, proj, mv, fi, 1);
    let q2 = screen_position_spec(mesh, vp, proj, mv, fi, 2);
    lemma_triangle_depth_monotonic(prev.1, w, h, q0, q1, q2);
}

/// Law: a triangle whose projected corners are collinear (its doubled signed
/// area is zero) writes nothing: every pixel gets the sentinel weights
/// (-1, 1, 1) and is rejected, so both buffers come back unchanged.
pub proof fn lemma_degenerate_triangle_no_writes<S: Shader>(
    frame: Seq<Rgb>,
    zb: Seq<i64>,
    w: int,
    h: int,
    p0: Fx4,
    p1: Fx4,
    p2: Fx4,
    sh: S,
    tex: Image,
)
    requires
        crate::shader::tri_cross_z_spec(
            tri_projected_spec(p0),
            tri_projected_spec(p1),
            tri_projected_spec(p2),
        ) == 0,
    ensures
        tri_frame_spec(frame, zb, w, h, p0, p1, p2, sh, tex) == frame,
        tri_depth_spec(zb, w, h, p0, p1, p2) == zb,
{
    assert forall|i: int| 0 <= i < frame.len() implies #[trigger] tri_frame_spec(
        frame,
        zb,
        w,
        h,
        p0,
        p1,
        p2,
        sh,
        tex,
    )[i] == frame[i] by {
        let b = tri_pixel_bary_spec(p0, p1, p2, i % w, i / w);
        assert(b.n0 == -1);
    }
    assert forall|i: int| 0 <= i < zb.len() implies #[trigger] tri_depth_spec(
        zb,
        w,
        h,
        p0,
        p1,
        p2,
    )[i] == zb[i] by {
        let b = tri_pixel_bary_spec(p0, p1, p2, i % w, i / w);
        assert(b.n0 == -1);
    }
    assert(tri_frame_spec(frame, zb, w, h, p0, p1, p2, sh, tex) =~= frame);
    assert(tri_depth_spec(zb, w, h, p0, p1, p2) =~= zb);
}

/// Law: rendering is deterministic. The final frame and depth buffers are a
/// function of the render's inputs alone, so two passes over identical
/// inputs produce byte-identical buffers.
pub proof fn lemma_render_deterministic(
    mesh: Object,
    frame: Seq<Rgb>,
    zb: Seq<i64>,
    w: int,
    h: int,
    tex: Image,
    vp: Mat4,
    proj: Mat4,
    mv: Mat4,
    light: Fx3,
    n: nat,
    out1: (Seq<Rgb>, Seq<i64>),
    out2: (Seq<Rgb>, Seq<i64>),
)
    requires
        out1 == mesh_pass_spec(mesh, frame, zb, w, h, tex, vp, proj, mv, light, n),
        out2 == mesh_pass_spec(mesh, frame, zb, w, h, tex, vp, proj, mv, light, n),
    ensures
        out1.0 == out2.0,
        out1.1 == out2.1,
{
}

} // verus!
