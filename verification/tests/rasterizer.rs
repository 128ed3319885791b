use softrender::buffer::{DepthBuffer, Image, Rgb};
use softrender::fx::{Fx, SCALE};
use softrender::matrix::Mat4;
use softrender::render::{
    draw_line, draw_triangle, draw_triangle_mesh, draw_wire_mesh, fill_triangle,
};
use softrender::shader::{
    cel_quantize, find_barycentric, viewport, Barycentric, CelShader, FlatShader, GouraudShader,
    Mat2x3, Shader, VertexTriple, CEL_BAND_FULL, CEL_BAND_HIGH, CEL_BAND_LOW, CEL_BAND_MID,
};
use softrender::vector::{Fx2, Fx3, Fx4};
use softrender::wavefront::{Face, MeshError, Object};

fn fxi(i: i64) -> Fx {
    Fx::from_int(i)
}

fn fxr(raw: i64) -> Fx {
    Fx::from_raw(raw)
}

fn white() -> Rgb {
    Rgb { r: 255, g: 255, b: 255 }
}

fn black() -> Rgb {
    Rgb { r: 0, g: 0, b: 0 }
}

fn solid_image(w: usize, h: usize, c: Rgb) -> Image {
    let mut img = Image::new(w, h);
    for x in 0..w {
        for y in 0..h {
            img.put_pixel(x, y, c);
        }
    }
    img
}

fn count_non_black(img: &Image) -> usize {
    let mut n = 0;
    for x in 0..img.width() {
        for y in 0..img.height() {
            if img.get_pixel(x, y) != black() {
                n += 1;
            }
        }
    }
    n
}

// A diagonal line on a blank 512 x 512 buffer lights exactly the 512 pixels
// of the main diagonal and no others.
#[test]
fn draw_line_lights_exactly_the_diagonal() {
    let mut buffer = Image::new(512, 512);
    draw_line(0, 0, 511, 511, &mut buffer, white());
    for x in 0..512 {
        for y in 0..512 {
            if x == y {
                assert_eq!(buffer.get_pixel(x, y), white());
            } else {
                assert_eq!(buffer.get_pixel(x, y), black());
            }
        }
    }
    assert_eq!(count_non_black(&buffer), 512);
}

// A steep line walks the y axis and steps the x axis by the accumulated
// error: the exact Bresenham pixel set.
#[test]
fn draw_line_steep_exact_pixels() {
    let mut buffer = Image::new(8, 8);
    draw_line(0, 0, 1, 5, &mut buffer, white());
    let expected = [(0, 0), (0, 1), (0, 2), (1, 3), (1, 4), (1, 5)];
    for &(x, y) in expected.iter() {
        assert_eq!(buffer.get_pixel(x, y), white());
    }
    assert_eq!(count_non_black(&buffer), expected.len());
}

// Swapping the endpoints draws the same pixels.
#[test]
fn draw_line_endpoint_order_irrelevant() {
    let mut forward = Image::new(32, 32);
    let mut backward = Image::new(32, 32);
    draw_line(3, 7, 29, 18, &mut forward, white());
    draw_line(29, 18, 3, 7, &mut backward, white());
    for x in 0..32 {
        for y in 0..32 {
            assert_eq!(forward.get_pixel(x, y), backward.get_pixel(x, y));
        }
    }
}

// A right triangle filled by scanline covers exactly the lattice points
// between its long edge and its vertical edge.
#[test]
fn fill_triangle_exact_rows() {
    let mut buffer = Image::new(8, 8);
    fill_triangle((0, 0), (0, 4), (4, 4), &mut buffer, white());
    let mut expected = 0;
    for i in 0..4usize {
        for x in 0..8usize {
            let lit = x <= i;
            assert_eq!(buffer.get_pixel(x, i) == white(), lit);
            if lit {
                expected += 1;
            }
        }
    }
    assert_eq!(count_non_black(&buffer), expected);
}

// Inside a non-degenerate triangle the weights are non-negative exact
// rationals whose numerators sum to the (positive) denominator.
#[test]
fn barycentric_weights_sum_to_denominator() {
    let points = vec![
        Fx2::new(fxi(0), fxi(0)),
        Fx2::new(fxi(4), fxi(0)),
        Fx2::new(fxi(0), fxi(4)),
    ];
    let query = Fx4::new(fxi(1), fxi(1), fxi(0), fxi(0));
    let b: Barycentric = find_barycentric(&points, &query);
    let s = SCALE as i128;
    assert_eq!(b.den, 16 * s * s);
    assert_eq!(b.n0, 8 * s * s);
    assert_eq!(b.n1, 4 * s * s);
    assert_eq!(b.n2, 4 * s * s);
    assert!(b.n0 >= 0 && b.n1 >= 0 && b.n2 >= 0 && b.den > 0);
    assert_eq!(b.n0 + b.n1 + b.n2, b.den);
}

// A point outside the triangle gets a negative weight.
#[test]
fn barycentric_outside_point_rejected() {
    let points = vec![
        Fx2::new(fxi(0), fxi(0)),
        Fx2::new(fxi(4), fxi(0)),
        Fx2::new(fxi(0), fxi(4)),
    ];
    let query = Fx4::new(fxi(5), fxi(5), fxi(0), fxi(0));
    let b = find_barycentric(&points, &query);
    assert!(b.n0 < 0 || b.n1 < 0 || b.n2 < 0);
}

// Collinear corners yield the sentinel weights (-1, 1, 1).
#[test]
fn barycentric_collinear_sentinel() {
    let points = vec![
        Fx2::new(fxi(0), fxi(0)),
        Fx2::new(fxi(1), fxi(1)),
        Fx2::new(fxi(2), fxi(2)),
    ];
    let query = Fx4::new(fxi(1), fxi(0), fxi(0), fxi(0));
    let b = find_barycentric(&points, &query);
    assert_eq!(b, Barycentric { n0: -1, n1: 1, n2: 1, den: 1 });
}

fn flat_gouraud() -> GouraudShader {
    let mut s = GouraudShader::new();
    s.varying_intensity = Fx3::new(fxi(1), fxi(1), fxi(1));
    s.varying_texture = Mat2x3::zeros();
    s
}

// A simple orthographic triangle: every pixel with non-negative weights and
// a closer depth is shaded; everything else is untouched.
#[test]
fn draw_triangle_covers_exact_pixels() {
    let mut buffer = Image::new(16, 16);
    let texture = solid_image(2, 2, white());
    let mut zbuffer = DepthBuffer::new(16, 16);
    let points = vec![
        Fx4::new(fxi(2), fxi(2), fxr(SCALE / 2), fxi(1)),
        Fx4::new(fxi(10), fxi(2), fxr(SCALE / 2), fxi(1)),
        Fx4::new(fxi(2), fxi(10), fxr(SCALE / 2), fxi(1)),
    ];
    let shader = flat_gouraud();
    draw_triangle(&points, &mut buffer, &texture, &mut zbuffer, &shader);

    let mut lit = 0;
    for x in 0..16usize {
        for y in 0..16usize {
            let inside = x >= 2 && y >= 2 && x + y <= 12;
            assert_eq!(buffer.get_pixel(x, y) == white(), inside);
            if inside {
                assert_eq!(zbuffer.get_depth(x, y), SCALE / 2);
                lit += 1;
            } else {
                assert_eq!(zbuffer.get_depth(x, y), -SCALE);
            }
        }
    }
    assert_eq!(lit, 45);
}

// The depth test only lets strictly closer fragments through: a nearer
// second triangle overwrites, a farther third does not, and no depth value
// ever decreases.
#[test]
fn depth_buffer_is_monotonic() {
    let mut buffer = Image::new(16, 16);
    let texture = solid_image(2, 2, white());
    let mut zbuffer = DepthBuffer::new(16, 16);
    let shader = flat_gouraud();
    let tri = |z: i64| {
        vec![
            Fx4::new(fxi(2), fxi(2), fxr(z), fxi(1)),
            Fx4::new(fxi(10), fxi(2), fxr(z), fxi(1)),
            Fx4::new(fxi(2), fxi(10), fxr(z), fxi(1)),
        ]
    };

    draw_triangle(&tri(SCALE / 2), &mut buffer, &texture, &mut zbuffer, &shader);
    let depth_after_first: Vec<i64> = (0..16)
        .flat_map(|x| (0..16).map(move |y| (x, y)))
        .map(|(x, y)| zbuffer.get_depth(x, y))
        .collect();

    // A closer triangle overwrites every covered pixel.
    draw_triangle(&tri(3 * SCALE / 4), &mut buffer, &texture, &mut zbuffer, &shader);
    let depth_after_second: Vec<i64> = (0..16)
        .flat_map(|x| (0..16).map(move |y| (x, y)))
        .map(|(x, y)| zbuffer.get_depth(x, y))
        .collect();
    for (a, b) in depth_after_first.iter().zip(depth_after_second.iter()) {
        assert!(b >= a);
    }
    assert_eq!(zbuffer.get_depth(3, 3), 3 * SCALE / 4);

    // A farther triangle changes nothing.
    draw_triangle(&tri(SCALE / 4), &mut buffer, &texture, &mut zbuffer, &shader);
    let depth_after_third: Vec<i64> = (0..16)
        .flat_map(|x| (0..16).map(move |y| (x, y)))
        .map(|(x, y)| zbuffer.get_depth(x, y))
        .collect();
    assert_eq!(depth_after_second, depth_after_third);
}

// A triangle with collinear (zero-area) corners produces zero pixel writes.
#[test]
fn degenerate_triangle_writes_nothing() {
    let mut buffer = Image::new(16, 16);
    let texture = solid_image(2, 2, white());
    let mut zbuffer = DepthBuffer::new(16, 16);
    let points = vec![
        Fx4::new(fxi(1), fxi(1), fxi(0), fxi(1)),
        Fx4::new(fxi(5), fxi(5), fxi(0), fxi(1)),
        Fx4::new(fxi(9), fxi(9), fxi(0), fxi(1)),
    ];
    let shader = flat_gouraud();
    draw_triangle(&points, &mut buffer, &texture, &mut zbuffer, &shader);
    assert_eq!(count_non_black(&buffer), 0);
    for x in 0..16 {
        for y in 0..16 {
            assert_eq!(zbuffer.get_depth(x, y), -SCALE);
        }
    }
}

// The cel quantization lands on exactly the four bands, with the 0.95, 0.50
// and 0.10 edges.
#[test]
fn cel_quantize_bands() {
    assert_eq!(cel_quantize(fxr(SCALE)).raw, CEL_BAND_FULL);
    assert_eq!(cel_quantize(fxr(62260)).raw, CEL_BAND_FULL);
    assert_eq!(cel_quantize(fxr(62259)).raw, CEL_BAND_HIGH);
    assert_eq!(cel_quantize(fxr(32769)).raw, CEL_BAND_HIGH);
    assert_eq!(cel_quantize(fxr(32768)).raw, CEL_BAND_MID);
    assert_eq!(cel_quantize(fxr(6554)).raw, CEL_BAND_MID);
    assert_eq!(cel_quantize(fxr(6553)).raw, CEL_BAND_LOW);
    assert_eq!(cel_quantize(fxr(0)).raw, CEL_BAND_LOW);
}

fn one_triangle_mesh() -> Object {
    let geometric_vertices = vec![
        Fx3::new(fxr(-SCALE / 2), fxr(-SCALE / 2), fxi(0)),
        Fx3::new(fxr(SCALE / 2), fxr(-SCALE / 2), fxi(0)),
        Fx3::new(fxi(0), fxr(SCALE / 2), fxi(0)),
    ];
    let texture_vertices = vec![
        Fx2::new(fxi(0), fxi(0)),
        Fx2::new(fxr(SCALE / 2), fxi(0)),
        Fx2::new(fxi(0), fxr(SCALE / 2)),
    ];
    // Normals tilt from straight-on to sideways, so the interpolated
    // intensity sweeps through several cel bands.
    let normal_vertices = vec![
        Fx3::new(fxi(0), fxi(0), fxi(1)),
        Fx3::new(fxi(1), fxi(0), fxi(0)),
        Fx3::new(fxr(39322), fxi(0), fxr(52429)),
    ];
    let face = vec![Face { i0: 0, i1: 1, i2: 2 }];
    Object::new(
        geometric_vertices,
        face.clone(),
        texture_vertices,
        face.clone(),
        normal_vertices,
        face,
    )
    .unwrap()
}

// With the same shading frame, cel shading is Gouraud shading with the
// intensity pushed into one of four bands: both light the same pixels, and
// every cel pixel is the white texel scaled by a band.
#[test]
fn cel_is_banded_gouraud() {
    let mesh = one_triangle_mesh();
    let texture = solid_image(4, 4, white());
    let view_port = viewport(0, 0, 64, 64, 255);
    let identity = Mat4::identity();
    let light = Fx3::new(fxi(0), fxi(0), fxi(1));

    let mut gouraud_frame = Image::new(64, 64);
    let mut gouraud_z = DepthBuffer::new(64, 64);
    let mut gouraud = GouraudShader::new();
    let mut pts: Vec<Fx4> = Vec::new();
    for vi in 0..3 {
        pts.push(gouraud.vertex(&mesh, &view_port, &identity, &identity, &light, 0, vi));
    }
    draw_triangle(&pts, &mut gouraud_frame, &texture, &mut gouraud_z, &gouraud);

    let mut cel_frame = Image::new(64, 64);
    let mut cel_z = DepthBuffer::new(64, 64);
    let mut cel = CelShader::new();
    let mut cel_pts: Vec<Fx4> = Vec::new();
    for vi in 0..3 {
        cel_pts.push(cel.vertex(&mesh, &view_port, &identity, &identity, &light, 0, vi));
    }
    draw_triangle(&cel_pts, &mut cel_frame, &texture, &mut cel_z, &cel);

    let bands = [CEL_BAND_FULL, CEL_BAND_HIGH, CEL_BAND_MID, CEL_BAND_LOW];
    let band_values: Vec<u8> = bands.iter().map(|b| ((255 * b) / SCALE) as u8).collect();
    let mut lit = 0;
    let mut distinct = std::collections::BTreeSet::new();
    for x in 0..64 {
        for y in 0..64 {
            // Coverage does not depend on the shading model: both passes
            // wrote the same depths.
            assert_eq!(gouraud_z.get_depth(x, y), cel_z.get_depth(x, y));
            let covered = cel_z.get_depth(x, y) > -SCALE;
            let c = cel_frame.get_pixel(x, y);
            if covered {
                lit += 1;
                assert_eq!(c.r, c.g);
                assert_eq!(c.g, c.b);
                assert!(band_values.contains(&c.r), "cel value {} not a band", c.r);
                distinct.insert(c.r);
            } else {
                assert_eq!(c, black());
            }
        }
    }
    assert!(lit > 0);
    assert!(distinct.len() >= 2, "expected several cel bands, got {:?}", distinct);
    assert!(count_non_black(&gouraud_frame) > 0);
}

// Rendering the same inputs twice produces byte-identical frame and depth
// buffers.
#[test]
fn render_is_deterministic() {
    let mesh = one_triangle_mesh();
    let texture = solid_image(4, 4, white());
    let light = Fx3::new(fxi(0), fxi(0), fxi(1));
    let eye = Fx3::new(fxi(0), fxi(0), fxi(3));
    let center = Fx3::new(fxi(0), fxi(0), fxi(0));
    let up = Fx3::new(fxi(0), fxi(1), fxi(0));

    let mut frame1 = Image::new(64, 64);
    let z1 = draw_triangle_mesh(&mesh, &mut frame1, &texture, 255, &light, &eye, &center, &up);
    let mut frame2 = Image::new(64, 64);
    let z2 = draw_triangle_mesh(&mesh, &mut frame2, &texture, 255, &light, &eye, &center, &up);

    for x in 0..64 {
        for y in 0..64 {
            assert_eq!(frame1.get_pixel(x, y), frame2.get_pixel(x, y));
            assert_eq!(z1.get_depth(x, y), z2.get_depth(x, y));
        }
    }
    assert!(count_non_black(&frame1) > 0);
}

// The wireframe of a face whose corners sit on the canonical square's
// corners lights the diagonal, the top row and the left column.
#[test]
fn wire_mesh_single_face() {
    let geometric_vertices = vec![
        Fx3::new(fxi(-1), fxi(-1), fxi(0)),
        Fx3::new(fxi(1), fxi(1), fxi(0)),
        Fx3::new(fxi(-1), fxi(1), fxi(0)),
    ];
    let texture_vertices = vec![Fx2::new(fxi(0), fxi(0))];
    let normal_vertices = vec![Fx3::new(fxi(0), fxi(0), fxi(1))];
    let face = vec![Face { i0: 0, i1: 1, i2: 2 }];
    let zero_face = vec![Face { i0: 0, i1: 0, i2: 0 }];
    let mesh = Object::new(
        geometric_vertices,
        face,
        texture_vertices,
        zero_face.clone(),
        normal_vertices,
        zero_face,
    )
    .unwrap();

    let mut buffer = Image::new(16, 16);
    draw_wire_mesh(&mesh, &mut buffer);
    for i in 0..16usize {
        assert_eq!(buffer.get_pixel(i, i), white());
        assert_eq!(buffer.get_pixel(i, 15), white());
        assert_eq!(buffer.get_pixel(0, i), white());
    }
    assert_eq!(buffer.get_pixel(2, 1), black());
    assert_eq!(count_non_black(&buffer), 45);
}

// Flat shading lights every covered pixel uniformly by the face normal: a
// face looking straight at the light renders at full brightness, and one
// looking away clamps to black.
#[test]
fn flat_shader_uniform_face_color() {
    let texture = solid_image(2, 2, white());
    let points = vec![
        Fx4::new(fxi(2), fxi(2), fxr(SCALE / 2), fxi(1)),
        Fx4::new(fxi(10), fxi(2), fxr(SCALE / 2), fxi(1)),
        Fx4::new(fxi(2), fxi(10), fxr(SCALE / 2), fxi(1)),
    ];
    // The cached camera-space corners give the face the normal (0, 0, 1).
    let world = VertexTriple {
        p0: Fx3::new(fxi(0), fxi(0), fxi(0)),
        p1: Fx3::new(fxi(1), fxi(0), fxi(0)),
        p2: Fx3::new(fxi(0), fxi(1), fxi(0)),
    };

    let mut toward = FlatShader::new();
    toward.varying_intensity = Fx3::new(fxi(0), fxi(0), fxi(1));
    toward.world_coordinates = world;
    let mut buffer = Image::new(16, 16);
    let mut zbuffer = DepthBuffer::new(16, 16);
    draw_triangle(&points, &mut buffer, &texture, &mut zbuffer, &toward);
    assert_eq!(buffer.get_pixel(3, 3), white());
    assert_eq!(buffer.get_pixel(4, 5), white());
    assert_eq!(count_non_black(&buffer), 45);

    let mut away = FlatShader::new();
    away.varying_intensity = Fx3::new(fxi(0), fxi(0), fxi(-1));
    away.world_coordinates = world;
    let mut dark = Image::new(16, 16);
    let mut dark_z = DepthBuffer::new(16, 16);
    draw_triangle(&points, &mut dark, &texture, &mut dark_z, &away);
    // The negative intensity clamps every channel to zero, but the pixels
    // are still rasterized: their depths are written.
    assert_eq!(count_non_black(&dark), 0);
    assert_eq!(dark_z.get_depth(3, 3), SCALE / 2);
}

// A triangle reaching far outside the buffer is clamped at the bounding-box
// stage: the covered in-buffer pixels are shaded and nothing else is touched.
#[test]
fn triangle_outside_buffer_is_clamped() {
    let mut buffer = Image::new(8, 8);
    let texture = solid_image(2, 2, white());
    let mut zbuffer = DepthBuffer::new(8, 8);
    let points = vec![
        Fx4::new(fxi(-5), fxi(-5), fxr(SCALE / 2), fxi(1)),
        Fx4::new(fxi(20), fxi(-5), fxr(SCALE / 2), fxi(1)),
        Fx4::new(fxi(-5), fxi(20), fxr(SCALE / 2), fxi(1)),
    ];
    let shader = flat_gouraud();
    draw_triangle(&points, &mut buffer, &texture, &mut zbuffer, &shader);
    // Every buffer pixel lies inside this huge triangle.
    for x in 0..8 {
        for y in 0..8 {
            assert_eq!(buffer.get_pixel(x, y), white());
            assert_eq!(zbuffer.get_depth(x, y), SCALE / 2);
        }
    }
}

// A face index past its vertex list is rejected, never patched.
#[test]
fn mesh_rejects_out_of_range_index() {
    let vertices = vec![Fx3::new(fxi(0), fxi(0), fxi(0))];
    let uvs = vec![Fx2::new(fxi(0), fxi(0))];
    let normals = vec![Fx3::new(fxi(0), fxi(0), fxi(1))];
    let good = vec![Face { i0: 0, i1: 0, i2: 0 }];
    let bad = vec![Face { i0: 0, i1: 1, i2: 0 }];
    let r = Object::new(vertices, bad, uvs, good.clone(), normals, good);
    assert_eq!(r.err(), Some(MeshError::IndexOutOfRange));
}

// Face lists of different lengths are rejected.
#[test]
fn mesh_rejects_mismatched_face_lists() {
    let vertices = vec![Fx3::new(fxi(0), fxi(0), fxi(0))];
    let uvs = vec![Fx2::new(fxi(0), fxi(0))];
    let normals = vec![Fx3::new(fxi(0), fxi(0), fxi(1))];
    let one = vec![Face { i0: 0, i1: 0, i2: 0 }];
    let two = vec![Face { i0: 0, i1: 0, i2: 0 }, Face { i0: 0, i1: 0, i2: 0 }];
    let r = Object::new(vertices, one, uvs, two, normals, vec![Face { i0: 0, i1: 0, i2: 0 }]);
    assert_eq!(r.err(), Some(MeshError::MismatchedFaceLists));
}

// A well-formed mesh is accepted and keeps its data.
#[test]
fn mesh_accepts_valid_data() {
    let mesh = one_triangle_mesh();
    assert_eq!(mesh.geometric_vertices.len(), 3);
    assert_eq!(mesh.geometric_faces.len(), 1);
}
