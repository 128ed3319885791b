//! Coordinate-space transforms and barycentric coordinates.
//!
//! `lookat`, `projection` and `viewport` build the three matrices that carry
//! a world-space vertex into pixel space; `find_barycentric` expresses a
//! pixel as a weighted combination of a projected triangle's corners. The
//! weights are kept as exact integer numerators over a common denominator,
//! the triangle's doubled signed area, so that degenerate triangles and
//! weight signs are decided exactly.

use vstd::prelude::*;
use crate::fx::{
    Fx, fx_of, fx_sub, fx_mul, fx_neg, fx_max, sat_i64, sat_i128, sdiv128_spec, tdiv,
    lemma_i64_mul_fits, sadd_i128, ssub_i128, smul_i128, sdiv_i128, tdiv_i128, clamp_to_i64, SCALE,
};
use crate::vector::{
    Fx2, Fx3, Fx4, v3_sub_spec, v3_cross_spec, v3_normalize_spec, v3_dot_spec, project_to_3d,
    project_to_3d_spec, vectorize_to_4d,
};
use crate::matrix::{Mat4, mat_mul_spec, mat_vec_spec, mat_identity_spec};
use crate::buffer::{Image, Rgb, grid_index};
use crate::wavefront::Object;

verus! {

/// What `lookat` returns: the camera basis (right, true up, forward) as the
/// upper rows, times a translation taking `center` to the origin.
pub open spec fn lookat_spec(eye: Fx3, center: Fx3, up: Fx3) -> Mat4 {
    let z = v3_normalize_spec(v3_sub_spec(eye, center));
    let x = v3_normalize_spec(v3_cross_spec(up, z));
    let y = v3_normalize_spec(v3_cross_spec(z, x));
    let basis = Mat4 {
        r0: Fx4 { x: x.x, y: x.y, z: x.z, w: fx_of(0) },
        r1: Fx4 { x: y.x, y: y.y, z: y.z, w: fx_of(0) },
        r2: Fx4 { x: z.x, y: z.y, z: z.z, w: fx_of(0) },
        r3: Fx4 { x: fx_of(0), y: fx_of(0), z: fx_of(0), w: fx_of(SCALE as int) },
    };
    let translation = Mat4 {
        r0: Fx4 {
            x: fx_of(SCALE as int),
            y: fx_of(0),
            z: fx_of(0),
            w: fx_of(fx_neg(center.x.v())),
        },
        r1: Fx4 {
            x: fx_of(0),
            y: fx_of(SCALE as int),
            z: fx_of(0),
            w: fx_of(fx_neg(center.y.v())),
        },
        r2: Fx4 {
            x: fx_of(0),
            y: fx_of(0),
            z: fx_of(SCALE as int),
            w: fx_of(fx_neg(center.z.v())),
        },
        r3: Fx4 { x: fx_of(0), y: fx_of(0), z: fx_of(0), w: fx_of(SCALE as int) },
    };
    mat_mul_spec(basis, translation)
}

/// Change the frame of reference to that of a viewer at `eye` looking toward
/// `center`, with `up` fixing the roll. `up` collinear with `eye - center`
/// yields a degenerate basis (a zero cross product normalizes by a zero
/// norm, which saturates), as it does in real arithmetic.
pub fn lookat(eye: &Fx3, center: &Fx3, up: &Fx3) -> (r: Mat4)
    ensures
        r == lookat_spec(*eye, *center, *up),
{
    let z = eye.sub(*center).normalize();
    let x = up.cross(z).normalize();
    let y = z.cross(x).normalize();

    let zero = Fx::zero();
    let one = Fx::one();
    let basis = Mat4 {
        r0: Fx4 { x: x.x, y: x.y, z: x.z, w: zero },
        r1: Fx4 { x: y.x, y: y.y, z: y.z, w: zero },
        r2: Fx4 { x: z.x, y: z.y, z: z.z, w: zero },
        r3: Fx4 { x: zero, y: zero, z: zero, w: one },
    };
    let translation = Mat4 {
        r0: Fx4 { x: one, y: zero, z: zero, w: center.x.neg() },
        r1: Fx4 { x: zero, y: one, z: zero, w: center.y.neg() },
        r2: Fx4 { x: zero, y: zero, z: one, w: center.z.neg() },
        r3: Fx4 { x: zero, y: zero, z: zero, w: one },
    };
    basis.mul_mat(translation)
}

/// What `projection` returns: the identity with the given coefficient at
/// row 3, column 2.
pub open spec fn projection_spec(coefficient: Fx) -> Mat4 {
    Mat4 {
        r0: mat_identity_spec().r0,
        r1: mat_identity_spec().r1,
        r2: mat_identity_spec().r2,
        r3: Fx4 { x: fx_of(0), y: fx_of(0), z: coefficient, w: fx_of(SCALE as int) },
    }
}

/// Create a pinhole projection matrix with the given coefficient
/// (`-1 / |eye - center|` in the full pipeline).
pub fn projection(coefficient: Fx) -> (r: Mat4)
    ensures
        r == projection_spec(coefficient),
{
    let zero = Fx::zero();
    let one = Fx::one();
    Mat4 {
        r0: Fx4 { x: one, y: zero, z: zero, w: zero },
        r1: Fx4 { x: zero, y: one, z: zero, w: zero },
        r2: Fx4 { x: zero, y: zero, z: one, w: zero },
        r3: Fx4 { x: zero, y: zero, z: coefficient, w: one },
    }
}

/// What `viewport` returns. All entries are exact: the halves of `width`,
/// `height` and `depth` land on the half-unit of the fixed-point grid.
pub open spec fn viewport_spec(x: int, y: int, w: int, h: int, depth: int) -> Mat4 {
    Mat4 {
        r0: Fx4 {
            x: fx_of(w * (SCALE as int / 2)),
            y: fx_of(0),
            z: fx_of(0),
            w: fx_of(x * SCALE as int + w * (SCALE as int / 2)),
        },
        r1: Fx4 {
            x: fx_of(0),
            y: fx_of(h * (SCALE as int / 2)),
            z: fx_of(0),
            w: fx_of(y * SCALE as int + h * (SCALE as int / 2)),
        },
        r2: Fx4 {
            x: fx_of(0),
            y: fx_of(0),
            z: fx_of(depth * (SCALE as int / 2)),
            w: fx_of(depth * (SCALE as int / 2)),
        },
        r3: Fx4 { x: fx_of(0), y: fx_of(0), z: fx_of(0), w: fx_of(SCALE as int) },
    }
}

/// Map the canonical cube [-1, 1]^3 to the pixel box
/// [x, x + width] x [y, y + height] and the depth range [0, depth].
pub fn viewport(x: u32, y: u32, width: u32, height: u32, depth: u32) -> (r: Mat4)
    ensures
        r == viewport_spec(x as int, y as int, width as int, height as int, depth as int),
{
    let zero = Fx::zero();
    let one = Fx::one();
    let half: i64 = SCALE / 2;
    let half_w = Fx { raw: (width as i64) * half };
    let half_h = Fx { raw: (height as i64) * half };
    let half_d = Fx { raw: (depth as i64) * half };
    Mat4 {
        r0: Fx4 { x: half_w, y: zero, z: zero, w: Fx { raw: (x as i64) * SCALE + (width as i64) * half } },
        r1: Fx4 { x: zero, y: half_h, z: zero, w: Fx { raw: (y as i64) * SCALE + (height as i64) * half } },
        r2: Fx4 { x: zero, y: zero, z: half_d, w: half_d },
        r3: Fx4 { x: zero, y: zero, z: zero, w: one },
    }
}

/// Barycentric weights of a pixel with respect to a projected triangle, as
/// exact rational numbers: weight `i` is `n_i / den`. For a non-degenerate
/// triangle the denominator is positive and the numerators sum to it.
#[derive(Clone, Copy, PartialEq, Eq, Structural, Debug)]
pub struct Barycentric {
    pub n0: i128,
    pub n1: i128,
    pub n2: i128,
    pub den: i128,
}

/// The z component of the edge cross product: the triangle's doubled signed
/// area, in squared fixed-point units. It does not depend on the pixel.
pub open spec fn tri_cross_z_spec(p0: Fx2, p1: Fx2, p2: Fx2) -> int {
    let ux = fx_sub(p2.x.v(), p0.x.v());
    let uy = fx_sub(p1.x.v(), p0.x.v());
    let vx = fx_sub(p2.y.v(), p0.y.v());
    let vy = fx_sub(p1.y.v(), p0.y.v());
    sat_i128(ux * vy - uy * vx)
}

/// The degenerate-triangle guard: a doubled area below 0.01 in real units.
pub open spec fn bary_degenerate_spec(p0: Fx2, p1: Fx2, p2: Fx2) -> bool {
    100 * abs_int(tri_cross_z_spec(p0, p1, p2)) < (SCALE as int) * (SCALE as int)
}

pub open spec fn abs_int(x: int) -> int {
    if x < 0 {
        -x
    } else {
        x
    }
}

/// The barycentric weights of pixel `(px, py)` (raw fixed-point coordinates)
/// with respect to the projected triangle `p0 p1 p2`. A degenerate triangle
/// yields the sentinel weights (-1, 1, 1), rejected by every sign test; any
/// other denominator is normalized to be positive.
pub open spec fn bary_spec(p0: Fx2, p1: Fx2, p2: Fx2, px: int, py: int) -> Barycentric {
    if bary_degenerate_spec(p0, p1, p2) {
        Barycentric { n0: -1i128, n1: 1i128, n2: 1i128, den: 1i128 }
    } else {
        let ux = fx_sub(p2.x.v(), p0.x.v());
        let uy = fx_sub(p1.x.v(), p0.x.v());
        let uz = fx_sub(p0.x.v(), px);
        let vx = fx_sub(p2.y.v(), p0.y.v());
        let vy = fx_sub(p1.y.v(), p0.y.v());
        let vz = fx_sub(p0.y.v(), py);
        let wx = sat_i128(uy * vz - uz * vy);
        let wy = sat_i128(uz * vx - ux * vz);
        let wz = sat_i128(ux * vy - uy * vx);
        let n0 = sat_i128(sat_i128(wz - wx) - wy);
        if wz >= 0 {
            Barycentric { n0: n0 as i128, n1: wy as i128, n2: wx as i128, den: wz as i128 }
        } else {
            Barycentric {
                n0: sat_i128(-n0) as i128,
                n1: sat_i128(-wy) as i128,
                n2: sat_i128(-wx) as i128,
                den: sat_i128(-wz) as i128,
            }
        }
    }
}

/// Whether the weights admit the pixel: all three are non-negative.
pub open spec fn bary_inside_spec(b: Barycentric) -> bool {
    b.n0 >= 0 && b.n1 >= 0 && b.n2 >= 0
}

/// Find the barycentric coordinates of the given point with respect to the
/// given triangle. Only the `x` and `y` coordinates of `point` are read.
pub fn find_barycentric(points: &Vec<Fx2>, point: &Fx4) -> (r: Barycentric)
    requires
        points@.len() == 3,
    ensures
        r == bary_spec(points@[0], points@[1], points@[2], point.x.v(), point.y.v()),
{
    let p0 = points[0];
    let p1 = points[1];
    let p2 = points[2];
    let ux = p2.x.sub(p0.x);
    let uy = p1.x.sub(p0.x);
    let uz = p0.x.sub(point.x);
    let vx = p2.y.sub(p0.y);
    let vy = p1.y.sub(p0.y);
    let vz = p0.y.sub(point.y);
    proof {
        lemma_i64_mul_fits(uy.raw as int, vz.raw as int);
        lemma_i64_mul_fits(uz.raw as int, vy.raw as int);
        lemma_i64_mul_fits(uz.raw as int, vx.raw as int);
        lemma_i64_mul_fits(ux.raw as int, vz.raw as int);
        lemma_i64_mul_fits(ux.raw as int, vy.raw as int);
        lemma_i64_mul_fits(uy.raw as int, vx.raw as int);
    }
    let wx = ssub_i128((uy.raw as i128) * (vz.raw as i128), (uz.raw as i128) * (vy.raw as i128));
    let wy = ssub_i128((uz.raw as i128) * (vx.raw as i128), (ux.raw as i128) * (vz.raw as i128));
    let wz = ssub_i128((ux.raw as i128) * (vy.raw as i128), (uy.raw as i128) * (vx.raw as i128));
    if -42949673 < wz && wz < 42949673 {
        Barycentric { n0: -1, n1: 1, n2: 1, den: 1 }
    } else {
        let n0 = ssub_i128(ssub_i128(wz, wx), wy);
        if wz >= 0 {
            Barycentric { n0, n1: wy, n2: wx, den: wz }
        } else {
            Barycentric {
                n0: ssub_i128(0, n0),
                n1: ssub_i128(0, wy),
                n2: ssub_i128(0, wx),
                den: ssub_i128(0, wz),
            }
        }
    }
}

/// Interpolate three per-corner raw values by barycentric weights: the
/// weighted sum of the numerators, divided by the common denominator.
pub open spec fn bary_blend_spec(v0: int, v1: int, v2: int, b: Barycentric) -> int {
    let num = sat_i128(
        sat_i128(sat_i128(v0 * b.n0) + sat_i128(v1 * b.n1)) + sat_i128(v2 * b.n2),
    );
    sat_i64(sdiv128_spec(num, b.den as int))
}

/// Interpolate three per-corner fixed-point values by barycentric weights.
pub fn bary_blend(v0: Fx, v1: Fx, v2: Fx, b: &Barycentric) -> (r: Fx)
    ensures
        r.v() == bary_blend_spec(v0.v(), v1.v(), v2.v(), *b),
{
    let m0 = smul_i128(v0.raw as i128, b.n0);
    let m1 = smul_i128(v1.raw as i128, b.n1);
    let m2 = smul_i128(v2.raw as i128, b.n2);
    let num = sadd_i128(sadd_i128(m0, m1), m2);
    let q = sdiv_i128(num, b.den);
    Fx { raw: clamp_to_i64(q) }
}

/// A 2x3 matrix of texture coordinates: column `k` holds corner `k`'s UV.
#[derive(Clone, Copy, PartialEq, Eq, Structural, Debug)]
pub struct Mat2x3 {
    pub c0: Fx2,
    pub c1: Fx2,
    pub c2: Fx2,
}

/// `m` with column `k` replaced.
pub open spec fn set_col_spec(m: Mat2x3, k: int, v: Fx2) -> Mat2x3 {
    if k == 0 {
        Mat2x3 { c0: v, c1: m.c1, c2: m.c2 }
    } else if k == 1 {
        Mat2x3 { c0: m.c0, c1: v, c2: m.c2 }
    } else {
        Mat2x3 { c0: m.c0, c1: m.c1, c2: v }
    }
}

impl Mat2x3 {
    pub fn zeros() -> (r: Mat2x3)
        ensures
            r == (Mat2x3 { c0: zero2_spec(), c1: zero2_spec(), c2: zero2_spec() }),
    {
        Mat2x3 { c0: Fx2::zeros(), c1: Fx2::zeros(), c2: Fx2::zeros() }
    }

    /// Replace column `k`.
    pub fn set_col(self, k: usize, v: Fx2) -> (r: Mat2x3)
        requires
            k < 3,
        ensures
            r == set_col_spec(self, k as int, v),
    {
        if k == 0 {
            Mat2x3 { c0: v, c1: self.c1, c2: self.c2 }
        } else if k == 1 {
            Mat2x3 { c0: self.c0, c1: v, c2: self.c2 }
        } else {
            Mat2x3 { c0: self.c0, c1: self.c1, c2: v }
        }
    }
}

pub open spec fn zero2_spec() -> Fx2 {
    Fx2 { x: fx_of(0), y: fx_of(0) }
}

pub open spec fn zero3_spec() -> Fx3 {
    Fx3 { x: fx_of(0), y: fx_of(0), z: fx_of(0) }
}

/// `v` with component `k` replaced: the per-corner slots of a shading frame.
pub open spec fn set_slot3_spec(v: Fx3, k: int, val: Fx) -> Fx3 {
    if k == 0 {
        Fx3 { x: val, y: v.y, z: v.z }
    } else if k == 1 {
        Fx3 { x: v.x, y: val, z: v.z }
    } else {
        Fx3 { x: v.x, y: v.y, z: val }
    }
}

/// Replace component `k` of a per-corner slot vector.
pub fn set_slot3(v: Fx3, k: usize, val: Fx) -> (r: Fx3)
    requires
        k < 3,
    ensures
        r == set_slot3_spec(v, k as int, val),
{
    if k == 0 {
        Fx3 { x: val, y: v.y, z: v.z }
    } else if k == 1 {
        Fx3 { x: v.x, y: val, z: v.z }
    } else {
        Fx3 { x: v.x, y: v.y, z: val }
    }
}

/// The three cached world-space corner positions of the triangle in flight.
#[derive(Clone, Copy, PartialEq, Eq, Structural, Debug)]
pub struct VertexTriple {
    pub p0: Fx3,
    pub p1: Fx3,
    pub p2: Fx3,
}

/// The triple with corner `k` replaced.
pub open spec fn set_triple_spec(t: VertexTriple, k: int, v: Fx3) -> VertexTriple {
    if k == 0 {
        VertexTriple { p0: v, p1: t.p1, p2: t.p2 }
    } else if k == 1 {
        VertexTriple { p0: t.p0, p1: v, p2: t.p2 }
    } else {
        VertexTriple { p0: t.p0, p1: t.p1, p2: v }
    }
}

impl VertexTriple {
    pub fn zeros() -> (r: VertexTriple)
        ensures
            r == (VertexTriple { p0: zero3_spec(), p1: zero3_spec(), p2: zero3_spec() }),
    {
        VertexTriple { p0: Fx3::zeros(), p1: Fx3::zeros(), p2: Fx3::zeros() }
    }

    /// Replace corner `k`.
    pub fn set(self, k: usize, v: Fx3) -> (r: VertexTriple)
        requires
            k < 3,
        ensures
            r == set_triple_spec(self, k as int, v),
    {
        if k == 0 {
            VertexTriple { p0: v, p1: self.p1, p2: self.p2 }
        } else if k == 1 {
            VertexTriple { p0: self.p0, p1: v, p2: self.p2 }
        } else {
            VertexTriple { p0: self.p0, p1: self.p1, p2: v }
        }
    }
}

/// The texel column (or row) hit by texture coordinate `q` on an axis of
/// `size` texels: `q * size` truncated, then clamped into the axis.
pub open spec fn tex_index_spec(q: int, size: int) -> int {
    let i = tdiv(q * size, SCALE as int);
    if i < 0 {
        0
    } else if i >= size {
        size - 1
    } else {
        i
    }
}

fn tex_index(q: Fx, size: usize) -> (r: usize)
    requires
        size >= 1,
    ensures
        r as int == tex_index_spec(q.v(), size as int),
{
    proof {
        assert(i128::MIN < (q.raw as int) * (size as int) <= i128::MAX) by (nonlinear_arith)
            requires
                i64::MIN <= q.raw <= i64::MAX,
                0 <= size <= usize::MAX,
        ;
    }
    let p = (q.raw as i128) * (size as i128);
    let i = tdiv_i128(p, SCALE as i128);
    if i < 0 {
        0
    } else if i >= size as i128 {
        size - 1
    } else {
        i as usize
    }
}

/// The texture pixel sampled at fixed-point UV coordinates `(u, v)`.
pub open spec fn sample_spec(tex: Image, u: int, v: int) -> Rgb {
    tex.pixels@[grid_index(
        tex_index_spec(u, tex.width as int),
        tex_index_spec(v, tex.height as int),
        tex.width as int,
    )]
}

/// Sample the texture at fixed-point UV coordinates.
pub fn sample_texture(texture: &Image, u: Fx, v: Fx) -> (r: Rgb)
    requires
        texture.wf(),
        texture.width >= 1,
        texture.height >= 1,
    ensures
        r == sample_spec(*texture, u.v(), v.v()),
{
    let sx = tex_index(u, texture.width);
    let sy = tex_index(v, texture.height);
    texture.get_pixel(sx, sy)
}

/// One color channel scaled by an intensity, truncated and clamped to a byte.
pub open spec fn scale_channel_spec(c: int, intensity: int) -> int {
    let s = tdiv(c * intensity, SCALE as int);
    if s < 0 {
        0
    } else if s > 255 {
        255
    } else {
        s
    }
}

fn shade_channel(c: u8, intensity: Fx) -> (r: u8)
    ensures
        r as int == scale_channel_spec(c as int, intensity.v()),
{
    proof {
        assert(i128::MIN < (c as int) * (intensity.raw as int) <= i128::MAX) by (nonlinear_arith)
            requires
                0 <= c <= 255,
                i64::MIN <= intensity.raw <= i64::MAX,
        ;
    }
    let p = (c as i128) * (intensity.raw as i128);
    let q = tdiv_i128(p, SCALE as i128);
    if q < 0 {
        0
    } else if q > 255 {
        255
    } else {
        q as u8
    }
}

/// A sampled color with every channel scaled by the intensity.
pub open spec fn shade_spec(c: Rgb, intensity: int) -> Rgb {
    Rgb {
        r: scale_channel_spec(c.r as int, intensity) as u8,
        g: scale_channel_spec(c.g as int, intensity) as u8,
        b: scale_channel_spec(c.b as int, intensity) as u8,
    }
}

/// Scale every channel of a color by an intensity.
pub fn shade_color(c: Rgb, intensity: Fx) -> (r: Rgb)
    ensures
        r == shade_spec(c, intensity.v()),
{
    Rgb {
        r: shade_channel(c.r, intensity),
        g: shade_channel(c.g, intensity),
        b: shade_channel(c.b, intensity),
    }
}

/// Interpolate a per-corner slot vector at the given weights.
pub open spec fn blend_slots_spec(v: Fx3, w: Barycentric) -> int {
    bary_blend_spec(v.x.v(), v.y.v(), v.z.v(), w)
}

/// Interpolate the stored UV columns at the given weights: the u coordinate.
pub open spec fn blend_u_spec(m: Mat2x3, w: Barycentric) -> int {
    bary_blend_spec(m.c0.x.v(), m.c1.x.v(), m.c2.x.v(), w)
}

/// Interpolate the stored UV columns at the given weights: the v coordinate.
pub open spec fn blend_v_spec(m: Mat2x3, w: Barycentric) -> int {
    bary_blend_spec(m.c0.y.v(), m.c1.y.v(), m.c2.y.v(), w)
}

/// The UV coordinates stored for corner `vi` of face `fi`.
pub open spec fn corner_uv_spec(mesh: Object, fi: int, vi: int) -> Fx2 {
    mesh.texture_vertices@[mesh.texture_faces@[fi].idx(vi)]
}

/// The light intensity at corner `vi` of face `fi`: the normalized vertex
/// normal dotted with the light vector, floored at zero.
pub open spec fn corner_intensity_spec(mesh: Object, light: Fx3, fi: int, vi: int) -> int {
    fx_max(
        0,
        v3_dot_spec(v3_normalize_spec(mesh.normal_vertices@[mesh.normal_faces@[fi].idx(vi)]), light),
    )
}

/// The homogeneous screen position of corner `vi` of face `fi`: the vertex
/// lifted to homogeneous coordinates and pushed through
/// `viewport * projection * view`.
pub open spec fn screen_position_spec(
    mesh: Object,
    view_port: Mat4,
    projection: Mat4,
    model_view: Mat4,
    fi: int,
    vi: int,
) -> Fx4 {
    let p = mesh.geometric_vertices@[mesh.geometric_faces@[fi].idx(vi)];
    let gl_vertex = Fx4 { x: p.x, y: p.y, z: p.z, w: fx_of(SCALE as int) };
    mat_vec_spec(mat_mul_spec(mat_mul_spec(view_port, projection), model_view), gl_vertex)
}

/// The camera-space position of corner `vi` of face `fi` after the
/// perspective divide, cached by the flat shader for its face normal.
pub open spec fn world_position_spec(
    mesh: Object,
    projection: Mat4,
    model_view: Mat4,
    fi: int,
    vi: int,
) -> Fx3 {
    let p = mesh.geometric_vertices@[mesh.geometric_faces@[fi].idx(vi)];
    let gl_vertex = Fx4 { x: p.x, y: p.y, z: p.z, w: fx_of(SCALE as int) };
    project_to_3d_spec(mat_vec_spec(mat_mul_spec(projection, model_view), gl_vertex))
}

/// One shading model: a vertex stage that records a corner of the triangle
/// in flight and returns its screen position, and a fragment stage that
/// colors one covered pixel from the recorded frame. The spec methods pin
/// both stages exactly, so rasterizer contracts stay exact for any shader.
pub trait Shader: Sized {
    /// The shader state after the vertex stage records corner `vi` of face
    /// `fi`.
    spec fn vertex_next_spec(
        self,
        mesh: Object,
        view_port: Mat4,
        projection: Mat4,
        model_view: Mat4,
        light: Fx3,
        fi: int,
        vi: int,
    ) -> Self;

    /// The color the fragment stage produces at the given weights.
    spec fn fragment_spec(self, weights: Barycentric, texture: Image) -> Rgb;

    /// Record corner `vertex_index` of face `face_index` into the shading
    /// frame and return the corner's homogeneous screen position.
    fn vertex(
        &mut self,
        coordinates: &Object,
        view_port: &Mat4,
        projection: &Mat4,
        model_view: &Mat4,
        light_vector: &Fx3,
        face_index: usize,
        vertex_index: usize,
    ) -> (r: Fx4)
        requires
            coordinates.wf(),
            face_index < coordinates.geometric_faces@.len(),
            vertex_index < 3,
        ensures
            *final(self) == (*old(self)).vertex_next_spec(
                *coordinates,
                *view_port,
                *projection,
                *model_view,
                *light_vector,
                face_index as int,
                vertex_index as int,
            ),
            r == screen_position_spec(
                *coordinates,
                *view_port,
                *projection,
                *model_view,
                face_index as int,
                vertex_index as int,
            ),
    ;

    /// Color the pixel whose barycentric weights are given, sampling the
    /// texture and applying this model's lighting.
    fn fragment(&self, weights: Barycentric, texture: &Image) -> (r: Rgb)
        requires
            texture.wf(),
            texture.width >= 1,
            texture.height >= 1,
        ensures
            r == self.fragment_spec(weights, *texture),
    ;
}

/// Per-face uniform shading: the vertex stage caches the corner positions,
/// and the fragment stage lights every pixel by one face normal.
#[derive(Clone, Copy, PartialEq, Eq, Structural, Debug)]
pub struct FlatShader {
    pub varying_intensity: Fx3,
    pub varying_texture: Mat2x3,
    pub world_coordinates: VertexTriple,
}

impl FlatShader {
    /// Create a new instance of a FlatShader.
    pub fn new() -> (r: FlatShader)
        ensures
            r == (FlatShader {
                varying_intensity: zero3_spec(),
                varying_texture: (Mat2x3 { c0: zero2_spec(), c1: zero2_spec(), c2: zero2_spec() }),
                world_coordinates: (VertexTriple {
                    p0: zero3_spec(),
                    p1: zero3_spec(),
                    p2: zero3_spec(),
                }),
            }),
    {
        FlatShader {
            varying_intensity: Fx3::zeros(),
            varying_texture: Mat2x3::zeros(),
            world_coordinates: VertexTriple::zeros(),
        }
    }
}

/// What the flat fragment stage computes: the face normal from the three
/// cached corners, dotted with the stored light vector, applied to the
/// sampled texel.
pub open spec fn flat_fragment_spec(s: FlatShader, w: Barycentric, tex: Image) -> Rgb {
    let normal = v3_normalize_spec(
        v3_cross_spec(
            v3_sub_spec(s.world_coordinates.p1, s.world_coordinates.p0),
            v3_sub_spec(s.world_coordinates.p2, s.world_coordinates.p0),
        ),
    );
    let intensity = v3_dot_spec(normal, s.varying_intensity);
    shade_spec(sample_spec(tex, blend_u_spec(s.varying_texture, w), blend_v_spec(s.varying_texture, w)), intensity)
}

impl Shader for FlatShader {
    open spec fn vertex_next_spec(
        self,
        mesh: Object,
        view_port: Mat4,
        projection: Mat4,
        model_view: Mat4,
        light: Fx3,
        fi: int,
        vi: int,
    ) -> FlatShader {
        FlatShader {
            varying_intensity: light,
            varying_texture: set_col_spec(self.varying_texture, vi, corner_uv_spec(mesh, fi, vi)),
            world_coordinates: set_triple_spec(
                self.world_coordinates,
                vi,
                world_position_spec(mesh, projection, model_view, fi, vi),
            ),
        }
    }

    open spec fn fragment_spec(self, weights: Barycentric, texture: Image) -> Rgb {
        flat_fragment_spec(self, weights, texture)
    }

    /// Position the vertex into its scene coordinates, caching its
    /// camera-space position for the per-face normal.
    fn vertex(
        &mut self,
        coordinates: &Object,
        view_port: &Mat4,
        projection: &Mat4,
        model_view: &Mat4,
        light_vector: &Fx3,
        face_index: usize,
        vertex_index: usize,
    ) -> (r: Fx4) {
        let geometric_index = coordinates.geometric_faces[face_index].get(vertex_index);
        let texture_index = coordinates.texture_faces[face_index].get(vertex_index);
        self.varying_texture = self.varying_texture.set_col(
            vertex_index,
            coordinates.texture_vertices[texture_index],
        );
        self.varying_intensity = *light_vector;
        let gl_vertex = vectorize_to_4d(coordinates.geometric_vertices[geometric_index]);
        let projected_coordinate = project_to_3d(projection.mul_mat(*model_view).mul_vec(gl_vertex));
        self.world_coordinates = self.world_coordinates.set(vertex_index, projected_coordinate);
        view_port.mul_mat(*projection).mul_mat(*model_view).mul_vec(gl_vertex)
    }

    /// Light the pixel uniformly by the recomputed face normal.
    fn fragment(&self, weights: Barycentric, texture: &Image) -> (r: Rgb) {
        let normal = self.world_coordinates.p1.sub(self.world_coordinates.p0).cross(
            self.world_coordinates.p2.sub(self.world_coordinates.p0),
        ).normalize();
        let intensity = normal.dot(self.varying_intensity);
        let u = bary_blend(
            self.varying_texture.c0.x,
            self.varying_texture.c1.x,
            self.varying_texture.c2.x,
            &weights,
        );
        let v = bary_blend(
            self.varying_texture.c0.y,
            self.varying_texture.c1.y,
            self.varying_texture.c2.y,
            &weights,
        );
        let texture_pixel = sample_texture(texture, u, v);
        shade_color(texture_pixel, intensity)
    }
}

/// Banded shading: Gouraud's interpolated intensity, quantized into four
/// discrete bands before it scales the texel.
#[derive(Clone, Copy, PartialEq, Eq, Structural, Debug)]
pub struct CelShader {
    pub varying_intensity: Fx3,
    pub varying_texture: Mat2x3,
}

/// The band edges (0.95, 0.50 and 0.10 on the fixed-point grid).
pub const CEL_EDGE_HIGH: i64 = 62259;

pub const CEL_EDGE_MID: i64 = 32768;

pub const CEL_EDGE_LOW: i64 = 6553;

/// The band intensities (1.0, 0.70, 0.35 and 0.20 on the fixed-point grid).
pub const CEL_BAND_FULL: i64 = 65536;

pub const CEL_BAND_HIGH: i64 = 45875;

pub const CEL_BAND_MID: i64 = 22938;

pub const CEL_BAND_LOW: i64 = 13107;

/// The quantization of a cel-shaded intensity into its band.
pub open spec fn cel_quantize_spec(i: int) -> int {
    if i > CEL_EDGE_HIGH as int {
        CEL_BAND_FULL as int
    } else if i > CEL_EDGE_MID as int {
        CEL_BAND_HIGH as int
    } else if i > CEL_EDGE_LOW as int {
        CEL_BAND_MID as int
    } else {
        CEL_BAND_LOW as int
    }
}

/// Quantize an interpolated intensity into its cel band.
pub fn cel_quantize(i: Fx) -> (r: Fx)
    ensures
        r.v() == cel_quantize_spec(i.v()),
{
    if i.raw > CEL_EDGE_HIGH {
        Fx { raw: CEL_BAND_FULL }
    } else if i.raw > CEL_EDGE_MID {
        Fx { raw: CEL_BAND_HIGH }
    } else if i.raw > CEL_EDGE_LOW {
        Fx { raw: CEL_BAND_MID }
    } else {
        Fx { raw: CEL_BAND_LOW }
    }
}

impl CelShader {
    /// Create a new instance of a CelShader.
    pub fn new() -> (r: CelShader)
        ensures
            r == (CelShader {
                varying_intensity: zero3_spec(),
                varying_texture: (Mat2x3 { c0: zero2_spec(), c1: zero2_spec(), c2: zero2_spec() }),
            }),
    {
        CelShader { varying_intensity: Fx3::zeros(), varying_texture: Mat2x3::zeros() }
    }
}

/// What the cel fragment stage computes: the Gouraud intensity pushed into
/// its band, applied to the sampled texel.
pub open spec fn cel_fragment_spec(s: CelShader, w: Barycentric, tex: Image) -> Rgb {
    let intensity = cel_quantize_spec(blend_slots_spec(s.varying_intensity, w));
    shade_spec(sample_spec(tex, blend_u_spec(s.varying_texture, w), blend_v_spec(s.varying_texture, w)), intensity)
}

impl Shader for CelShader {
    open spec fn vertex_next_spec(
        self,
        mesh: Object,
        view_port: Mat4,
        projection: Mat4,
        model_view: Mat4,
        light: Fx3,
        fi: int,
        vi: int,
    ) -> CelShader {
        CelShader {
            varying_intensity: set_slot3_spec(
                self.varying_intensity,
                vi,
                fx_of(corner_intensity_spec(mesh, light, fi, vi)),
            ),
            varying_texture: set_col_spec(self.varying_texture, vi, corner_uv_spec(mesh, fi, vi)),
        }
    }

    open spec fn fragment_spec(self, weights: Barycentric, texture: Image) -> Rgb {
        cel_fragment_spec(self, weights, texture)
    }

    /// Position the vertex into its scene coordinates, recording its corner
    /// intensity and UV.
    fn vertex(
        &mut self,
        coordinates: &Object,
        view_port: &Mat4,
        projection: &Mat4,
        model_view: &Mat4,
        light_vector: &Fx3,
        face_index: usize,
        vertex_index: usize,
    ) -> (r: Fx4) {
        let geometric_index = coordinates.geometric_faces[face_index].get(vertex_index);
        let texture_index = coordinates.texture_faces[face_index].get(vertex_index);
        let normal_index = coordinates.normal_faces[face_index].get(vertex_index);
        let intensity = Fx::zero().max(
            coordinates.normal_vertices[normal_index].normalize().dot(*light_vector),
        );
        self.varying_intensity = set_slot3(self.varying_intensity, vertex_index, intensity);
        self.varying_texture = self.varying_texture.set_col(
            vertex_index,
            coordinates.texture_vertices[texture_index],
        );
        let gl_vertex = vectorize_to_4d(coordinates.geometric_vertices[geometric_index]);
        view_port.mul_mat(*projection).mul_mat(*model_view).mul_vec(gl_vertex)
    }

    /// Light the pixel by the quantized band of its interpolated intensity.
    fn fragment(&self, weights: Barycentric, texture: &Image) -> (r: Rgb) {
        let blended = bary_blend(
            self.varying_intensity.x,
            self.varying_intensity.y,
            self.varying_intensity.z,
            &weights,
        );
        let intensity = cel_quantize(blended);
        let u = bary_blend(
            self.varying_texture.c0.x,
            self.varying_texture.c1.x,
            self.varying_texture.c2.x,
            &weights,
        );
        let v = bary_blend(
            self.varying_texture.c0.y,
            self.varying_texture.c1.y,
            self.varying_texture.c2.y,
            &weights,
        );
        let texture_pixel = sample_texture(texture, u, v);
        shade_color(texture_pixel, intensity)
    }
}

/// Smooth shading: per-corner intensities interpolated across the face.
#[derive(Clone, Copy, PartialEq, Eq, Structural, Debug)]
pub struct GouraudShader {
    pub varying_intensity: Fx3,
    pub varying_texture: Mat2x3,
}

impl GouraudShader {
    /// Create a new instance of a GouraudShader.
    pub fn new() -> (r: GouraudShader)
        ensures
            r == (GouraudShader {
                varying_intensity: zero3_spec(),
                varying_texture: (Mat2x3 { c0: zero2_spec(), c1: zero2_spec(), c2: zero2_spec() }),
            }),
    {
        GouraudShader { varying_intensity: Fx3::zeros(), varying_texture: Mat2x3::zeros() }
    }
}

/// What the Gouraud fragment stage computes: the interpolated intensity
/// applied directly to the sampled texel.
pub open spec fn gouraud_fragment_spec(s: GouraudShader, w: Barycentric, tex: Image) -> Rgb {
    let intensity = blend_slots_spec(s.varying_intensity, w);
    shade_spec(sample_spec(tex, blend_u_spec(s.varying_texture, w), blend_v_spec(s.varying_texture, w)), intensity)
}

impl Shader for GouraudShader {
    open spec fn vertex_next_spec(
        self,
        mesh: Object,
        view_port: Mat4,
        projection: Mat4,
        model_view: Mat4,
        light: Fx3,
        fi: int,
        vi: int,
    ) -> GouraudShader {
        GouraudShader {
            varying_intensity: set_slot3_spec(
                self.varying_intensity,
                vi,
                fx_of(corner_intensity_spec(mesh, light, fi, vi)),
            ),
            varying_texture: set_col_spec(self.varying_texture, vi, corner_uv_spec(mesh, fi, vi)),
        }
    }

    open spec fn fragment_spec(self, weights: Barycentric, texture: Image) -> Rgb {
        gouraud_fragment_spec(self, weights, texture)
    }

    /// Position the vertex into its scene coordinates, recording its corner
    /// intensity and UV.
    fn vertex(
        &mut self,
        coordinates: &Object,
        view_port: &Mat4,
        projection: &Mat4,
        model_view: &Mat4,
        light_vector: &Fx3,
        face_index: usize,
        vertex_index: usize,
    ) -> (r: Fx4) {
        let geometric_index = coordinates.geometric_faces[face_index].get(vertex_index);
        let texture_index = coordinates.texture_faces[face_index].get(vertex_index);
        let normal_index = coordinates.normal_faces[face_index].get(vertex_index);
        let intensity = Fx::zero().max(
            coordinates.normal_vertices[normal_index].normalize().dot(*light_vector),
        );
        self.varying_intensity = set_slot3(self.varying_intensity, vertex_index, intensity);
        self.varying_texture = self.varying_texture.set_col(
            vertex_index,
            coordinates.texture_vertices[texture_index],
        );
        let gl_vertex = vectorize_to_4d(coordinates.geometric_vertices[geometric_index]);
        view_port.mul_mat(*projection).mul_mat(*model_view).mul_vec(gl_vertex)
    }

    /// Light the pixel by its interpolated intensity.
    fn fragment(&self, weights: Barycentric, texture: &Image) -> (r: Rgb) {
        let intensity = bary_blend(
            self.varying_intensity.x,
            self.varying_intensity.y,
            self.varying_intensity.z,
            &weights,
        );
        let u = bary_blend(
            self.varying_texture.c0.x,
            self.varying_texture.c1.x,
            self.varying_texture.c2.x,
            &weights,
        );
        let v = bary_blend(
            self.varying_texture.c0.y,
            self.varying_texture.c1.y,
            self.varying_texture.c2.y,
            &weights,
        );
        let texture_pixel = sample_texture(texture, u, v);
        shade_color(texture_pixel, intensity)
    }
}

/// The raw-coordinate magnitude under which the barycentric arithmetic is
/// exact: well inside the range where no product or sum saturates.
pub const BARY_EXACT_BOUND: i64 = 0x2000_0000_0000;

/// Law: for a non-degenerate triangle the barycentric weights are exact
/// rationals that sum to one: the three numerators sum to the common
/// denominator, which is positive. Stated for coordinates within
/// `BARY_EXACT_BOUND`, where no saturation can occur; at the extreme ends of
/// the fixed-point range the saturating cross products clip and the sum can
/// fall short.
pub proof fn lemma_barycentric_weights_sum(p0: Fx2, p1: Fx2, p2: Fx2, px: int, py: int)
    requires
        !bary_degenerate_spec(p0, p1, p2),
        abs_int(p0.x.v()) <= BARY_EXACT_BOUND,
        abs_int(p0.y.v()) <= BARY_EXACT_BOUND,
        abs_int(p1.x.v()) <= BARY_EXACT_BOUND,
        abs_int(p1.y.v()) <= BARY_EXACT_BOUND,
        abs_int(p2.x.v()) <= BARY_EXACT_BOUND,
        abs_int(p2.y.v()) <= BARY_EXACT_BOUND,
        abs_int(px) <= BARY_EXACT_BOUND,
        abs_int(py) <= BARY_EXACT_BOUND,
    ensures
        ({
            let b = bary_spec(p0, p1, p2, px, py);
            b.den > 0 && b.n0 + b.n1 + b.n2 == b.den
        }),
{
    let bound = BARY_EXACT_BOUND as int;
    let ux = fx_sub(p2.x.v(), p0.x.v());
    let uy = fx_sub(p1.x.v(), p0.x.v());
    let uz = fx_sub(p0.x.v(), px);
    let vx = fx_sub(p2.y.v(), p0.y.v());
    let vy = fx_sub(p1.y.v(), p0.y.v());
    let vz = fx_sub(p0.y.v(), py);
    assert(abs_int(ux) <= 2 * bound && abs_int(uy) <= 2 * bound && abs_int(uz) <= 2 * bound
        && abs_int(vx) <= 2 * bound && abs_int(vy) <= 2 * bound && abs_int(vz) <= 2 * bound);
    assert forall|a: int, b: int|
        abs_int(a) <= 2 * bound && abs_int(b) <= 2 * bound implies #[trigger] (a * b) <= 4 * bound
        * bound && a * b >= -4 * bound * bound by {
        assert((-(2 * bound) <= a <= 2 * bound && -(2 * bound) <= b <= 2 * bound) ==> (-(4 * bound
            * bound) <= a * b <= 4 * bound * bound)) by (nonlinear_arith)
            requires
                bound == BARY_EXACT_BOUND as int,
        ;
    }
    let wx = sat_i128(uy * vz - uz * vy);
    let wy = sat_i128(uz * vx - ux * vz);
    let wz = sat_i128(ux * vy - uy * vx);
    assert(wx == uy * vz - uz * vy);
    assert(wy == uz * vx - ux * vz);
    assert(wz == ux * vy - uy * vx);
    let n0 = sat_i128(sat_i128(wz - wx) - wy);
    assert(n0 == wz - wx - wy);
    assert(wz != 0);
}

/// Law: with equal shading frames, cel shading differs from Gouraud shading
/// only in the quantization of the interpolated intensity. Both sample the
/// same texel at the same interpolated UV; Gouraud scales it by the
/// interpolated intensity itself, cel by the intensity pushed into one of
/// the four bands (1.0, 0.70, 0.35 or 0.20 on the fixed-point grid).
pub proof fn lemma_cel_is_quantized_gouraud(
    cs: CelShader,
    gs: GouraudShader,
    w: Barycentric,
    tex: Image,
)
    requires
        cs.varying_intensity == gs.varying_intensity,
        cs.varying_texture == gs.varying_texture,
    ensures
        ({
            let intensity = blend_slots_spec(gs.varying_intensity, w);
            let texel = sample_spec(
                tex,
                blend_u_spec(gs.varying_texture, w),
                blend_v_spec(gs.varying_texture, w),
            );
            gs.fragment_spec(w, tex) == shade_spec(texel, intensity) && cs.fragment_spec(w, tex)
                == shade_spec(texel, cel_quantize_spec(intensity)) && (cel_quantize_spec(intensity)
                == CEL_BAND_FULL || cel_quantize_spec(intensity) == CEL_BAND_HIGH
                || cel_quantize_spec(intensity) == CEL_BAND_MID || cel_quantize_spec(intensity)
                == CEL_BAND_LOW)
        }),
{
}

/// Law: with equal shading frames, the cel and Gouraud vertex stages record
/// the same corner data: the same clamped normal-light intensity into the
/// same slot, and the same UV column.
pub proof fn lemma_cel_gouraud_vertex_agree(
    cs: CelShader,
    gs: GouraudShader,
    mesh: Object,
    vp: Mat4,
    proj: Mat4,
    mv: Mat4,
    light: Fx3,
    fi: int,
    vi: int,
)
    requires
        cs.varying_intensity == gs.varying_intensity,
        cs.varying_texture == gs.varying_texture,
    ensures
        ({
            let cn = cs.vertex_next_spec(mesh, vp, proj, mv, light, fi, vi);
            let gn = gs.vertex_next_spec(mesh, vp, proj, mv, light, fi, vi);
            cn.varying_intensity == gn.varying_intensity && cn.varying_texture
                == gn.varying_texture
        }),
{
}

/// Multiplying by one (or minus one) is exact in fixed point, away from the
/// saturation range: the scale cancels against the divisor.
pub proof fn lemma_fx_mul_unit(a: int)
    requires
        -0x4000_0000_0000_0000 <= a <= 0x4000_0000_0000_0000,
    ensures
        fx_mul(a, SCALE as int) == a,
        fx_mul(a, -(SCALE as int)) == -a,
{
    let sc = SCALE as int;
    if a >= 0 {
        assert(a * sc >= 0 && (a * sc) * -1 == (-a) * sc && a * (-sc) == -(a * sc)) by (nonlinear_arith)
            requires
                a >= 0 && sc > 0,
        ;
        vstd::arithmetic::div_mod::lemma_div_by_multiple(a, sc);
        assert(tdiv(a * sc, sc) == a);
        if a > 0 {
            assert(a * (-sc) < 0) by (nonlinear_arith)
                requires
                    a > 0 && sc > 0,
            ;
            assert((a * (-sc)) * -1 == a * sc) by (nonlinear_arith);
            assert(tdiv(a * (-sc), sc) == ((a * sc) / sc) * -1);
        } else {
            assert(a * (-sc) == 0) by (nonlinear_arith)
                requires
                    a == 0,
            ;
        }
    } else {
        let e = -a;
        assert(a * sc < 0 && (a * sc) * -1 == e * sc && a * (-sc) == e * sc) by (nonlinear_arith)
            requires
                e == -a && a < 0 && sc > 0,
        ;
        vstd::arithmetic::div_mod::lemma_div_by_multiple(e, sc);
        assert(tdiv(a * sc, sc) == ((e * sc) / sc) * -1);
        assert(tdiv(a * (-sc), sc) == (e * sc) / sc);
    }
}

/// Law: the viewport maps the canonical cube exactly. The corner
/// (-1, -1, -1) lands on pixel `(x, y)` at depth 0, and (1, 1, 1) on
/// `(x + w, y + h)` at depth `depth`, both with unit w.
pub proof fn lemma_viewport_maps_corners(x: int, y: int, w: int, h: int, depth: int)
    requires
        0 <= x <= 0xffff_ffff,
        0 <= y <= 0xffff_ffff,
        0 <= w <= 0xffff_ffff,
        0 <= h <= 0xffff_ffff,
        0 <= depth <= 0xffff_ffff,
    ensures
        ({
            let m = viewport_spec(x, y, w, h, depth);
            let sc = SCALE as int;
            let low = mat_vec_spec(
                m,
                Fx4 { x: fx_of(-sc), y: fx_of(-sc), z: fx_of(-sc), w: fx_of(sc) },
            );
            let high = mat_vec_spec(m, Fx4 { x: fx_of(sc), y: fx_of(sc), z: fx_of(sc), w: fx_of(sc) });
            low == (Fx4 { x: fx_of(x * sc), y: fx_of(y * sc), z: fx_of(0), w: fx_of(sc) }) && high
                == (Fx4 {
                x: fx_of((x + w) * sc),
                y: fx_of((y + h) * sc),
                z: fx_of(depth * sc),
                w: fx_of(sc),
            })
        }),
{
    let sc = SCALE as int;
    let half = sc / 2;
    lemma_fx_mul_unit(0);
    lemma_fx_mul_unit(w * half);
    lemma_fx_mul_unit(h * half);
    lemma_fx_mul_unit(depth * half);
    lemma_fx_mul_unit(x * sc + w * half);
    lemma_fx_mul_unit(y * sc + h * half);
    lemma_fx_mul_unit(sc);
    assert(w * half + w * half == w * sc && h * half + h * half == h * sc && depth * half + depth
        * half == depth * sc) by (nonlinear_arith)
        requires
            half == 32768 && sc == 65536,
    ;
    assert((x + w) * sc == x * sc + w * sc && (y + h) * sc == y * sc + h * sc) by (nonlinear_arith);
}

} // verus!
