use rasterizer::image::DynamicImage;
use rasterizer::primitives::{
    Polygon2, Primitive2, Triangle2, Vector2, Vector2i, Vector4, VertexMetadata,
};
use rasterizer::rasterization::{
    barycentric_coords, interpolate_meta, rasterize, round_vertex, BaryWeights,
};
use rasterizer::rendering::{
    clear_image, render_rasterization_to_image, render_scene_to_image, render_triangle_to_image,
    resolve_color, scene_triangle,
};
use rasterizer::util::{round_div_i64, vector2i_lerp};

const SCALE: i128 = 1048576;

fn fixed(v: i64) -> i128 {
    (v as i128) * SCALE
}

fn point(x: i64, y: i64) -> Vector2 {
    Vector2 { x: fixed(x), y: fixed(y) }
}

fn color_meta(r: f64, g: f64, b: f64, a: f64) -> VertexMetadata {
    VertexMetadata {
        world_pos: None,
        texture_coord: None,
        normal: None,
        color: Some(Vector4 {
            x: (r * SCALE as f64).round() as i128,
            y: (g * SCALE as f64).round() as i128,
            z: (b * SCALE as f64).round() as i128,
            w: (a * SCALE as f64).round() as i128,
        }),
    }
}

fn plain_triangle(v0: (i64, i64), v1: (i64, i64), v2: (i64, i64)) -> Triangle2 {
    Triangle2 {
        v: [point(v0.0, v0.1), point(v1.0, v1.1), point(v2.0, v2.1)],
        meta: [VertexMetadata::empty(), VertexMetadata::empty(), VertexMetadata::empty()],
    }
}

#[test]
fn barycentric_weights_sum_to_denominator() {
    let v1 = Vector2i { x: 0, y: 0 };
    let v2 = Vector2i { x: 10, y: 0 };
    let v3 = Vector2i { x: 0, y: 10 };
    for &(px, py) in &[(0i64, 0i64), (3, 3), (10, 10), (-5, 7), (100, -40)] {
        let w = barycentric_coords(&Vector2i { x: px, y: py }, &v1, &v2, &v3);
        assert_eq!(w.n1 + w.n2 + w.n3, w.den);
        assert_ne!(w.den, 0);
    }
}

#[test]
fn barycentric_weights_at_vertices() {
    let v1 = Vector2i { x: 2, y: 3 };
    let v2 = Vector2i { x: 9, y: 5 };
    let v3 = Vector2i { x: 4, y: 12 };
    let w1 = barycentric_coords(&v1, &v1, &v2, &v3);
    assert_eq!((w1.n1, w1.n2, w1.n3), (w1.den, 0, 0));
    let w2 = barycentric_coords(&v2, &v1, &v2, &v3);
    assert_eq!((w2.n1, w2.n2, w2.n3), (0, w2.den, 0));
    let w3 = barycentric_coords(&v3, &v1, &v2, &v3);
    assert_eq!((w3.n1, w3.n2, w3.n3), (0, 0, w3.den));
}

#[test]
fn interpolation_at_vertex_reproduces_attributes() {
    let v1 = Vector2i { x: 2, y: 3 };
    let v2 = Vector2i { x: 9, y: 5 };
    let v3 = Vector2i { x: 4, y: 12 };
    let m1 = color_meta(1.0, 0.5, 0.0, 1.0);
    let m2 = color_meta(0.0, 1.0, 0.5, 1.0);
    let m3 = color_meta(0.5, 0.0, 1.0, 1.0);
    let w1 = barycentric_coords(&v1, &v1, &v2, &v3);
    let r1 = interpolate_meta(&w1, &m1, &m2, &m3);
    assert_eq!(r1.color, m1.color);
    let w3 = barycentric_coords(&v3, &v1, &v2, &v3);
    let r3 = interpolate_meta(&w3, &m1, &m2, &m3);
    assert_eq!(r3.color, m3.color);
}

#[test]
fn interpolation_is_all_or_nothing_per_attribute() {
    let w = BaryWeights { n1: 1, n2: 0, n3: 0, den: 1 };
    let m1 = color_meta(1.0, 1.0, 1.0, 1.0);
    let m2 = VertexMetadata::empty();
    let m3 = color_meta(0.0, 0.0, 0.0, 1.0);
    let r = interpolate_meta(&w, &m1, &m2, &m3);
    assert_eq!(r.color, None);
    assert_eq!(r.world_pos, None);
    assert_eq!(r.texture_coord, None);
    assert_eq!(r.normal, None);
}

#[test]
fn interpolation_blends_midpoint_exactly() {
    let w = BaryWeights { n1: 1, n2: 0, n3: 1, den: 2 };
    let m1 = color_meta(1.0, 0.0, 0.0, 1.0);
    let m2 = color_meta(0.0, 0.0, 0.0, 0.0);
    let m3 = color_meta(0.0, 0.0, 1.0, 1.0);
    let r = interpolate_meta(&w, &m1, &m2, &m3);
    let c = r.color.unwrap();
    assert_eq!(c.x, SCALE / 2);
    assert_eq!(c.y, 0);
    assert_eq!(c.z, SCALE / 2);
    assert_eq!(c.w, SCALE);
}

#[test]
fn degenerate_triangle_yields_zero_fragments() {
    let tri = plain_triangle((100, 100), (200, 100), (300, 100));
    let frags = rasterize(&tri);
    assert_eq!(frags.len(), 0);
}

#[test]
fn zero_height_after_rounding_yields_zero_fragments() {
    // Three distinct sub-pixel rows that all round to row 7.
    let tri = Triangle2 {
        v: [
            Vector2 { x: 0, y: 7 * SCALE - 100 },
            Vector2 { x: fixed(10), y: 7 * SCALE },
            Vector2 { x: fixed(20), y: 7 * SCALE + 100 },
        ],
        meta: [VertexMetadata::empty(), VertexMetadata::empty(), VertexMetadata::empty()],
    };
    let frags = rasterize(&tri);
    assert_eq!(frags.len(), 0);
}

#[test]
fn flat_bottom_triangle_exact_fragments() {
    let tri = plain_triangle((0, 0), (2, 2), (-2, 2));
    let frags = rasterize(&tri);
    let expected: Vec<(i64, i64)> = vec![
        (0, 0),
        (-1, 1),
        (0, 1),
        (1, 1),
        (-2, 2),
        (-1, 2),
        (0, 2),
        (1, 2),
        (2, 2),
    ];
    let got: Vec<(i64, i64)> = frags.iter().map(|f| (f.0.x, f.0.y)).collect();
    assert_eq!(got, expected);
    for f in &frags {
        assert_eq!(f.1, VertexMetadata::empty());
    }
}

#[test]
fn flat_top_triangle_exact_fragments() {
    let tri = plain_triangle((0, 0), (4, 0), (2, 2));
    let frags = rasterize(&tri);
    let expected: Vec<(i64, i64)> = vec![
        (0, 0),
        (1, 0),
        (2, 0),
        (3, 0),
        (4, 0),
        (1, 1),
        (2, 1),
        (3, 1),
        (2, 2),
    ];
    let got: Vec<(i64, i64)> = frags.iter().map(|f| (f.0.x, f.0.y)).collect();
    assert_eq!(got, expected);
}

#[test]
fn single_column_triangle_emits_one_pixel_per_row() {
    let tri = Triangle2 {
        v: [point(0, 0), point(0, 3), point(0, 5)],
        meta: [
            color_meta(1.0, 0.0, 0.0, 1.0),
            color_meta(0.0, 1.0, 0.0, 1.0),
            color_meta(0.0, 0.0, 1.0, 1.0),
        ],
    };
    let frags = rasterize(&tri);
    // Upper span rows 0..=3, lower span rows 3..=5 (the shared row is
    // emitted by both spans).
    let got: Vec<(i64, i64)> = frags.iter().map(|f| (f.0.x, f.0.y)).collect();
    assert_eq!(got, vec![(0, 0), (0, 1), (0, 2), (0, 3), (0, 3), (0, 4), (0, 5)]);
    // The spans are zero-area, so no attribute survives interpolation.
    for f in &frags {
        assert_eq!(f.1.color, None);
    }
}

#[test]
fn fragments_stay_in_rounded_bounding_box() {
    let tri = Triangle2 {
        v: [point(0, 0), point(5, 7), point(9, 2)],
        meta: [
            color_meta(1.0, 0.0, 0.0, 1.0),
            color_meta(0.0, 1.0, 0.0, 1.0),
            color_meta(0.0, 0.0, 1.0, 1.0),
        ],
    };
    let frags = rasterize(&tri);
    assert!(frags.len() > 0);
    for f in &frags {
        assert!(0 <= f.0.x && f.0.x <= 9);
        assert!(0 <= f.0.y && f.0.y <= 7);
    }
}

#[test]
fn rasterization_is_deterministic() {
    let tri = scene_triangle();
    let a = rasterize(&tri);
    let b = rasterize(&tri);
    assert_eq!(a, b);
}

#[test]
fn scene_triangle_fragments_and_untouched_pixel() {
    let tri = scene_triangle();
    let frags = rasterize(&tri);
    assert!(frags.len() > 0);
    for f in &frags {
        assert!(100 <= f.0.x && f.0.x <= 300);
        assert!(100 <= f.0.y && f.0.y <= 300);
    }
    let mut img = DynamicImage::new(600, 600);
    clear_image(&mut img);
    render_rasterization_to_image(frags, &mut img);
    assert_eq!(img.get_rgba(10, 10), (0, 0, 0, 255));
}

#[test]
fn render_scene_to_image_paints_inside_only() {
    let mut img = DynamicImage::new(600, 600);
    clear_image(&mut img);
    render_scene_to_image(&mut img);
    // A pixel far from the triangle keeps the cleared color.
    assert_eq!(img.get_rgba(10, 10), (0, 0, 0, 255));
    assert_eq!(img.get_rgba(599, 599), (0, 0, 0, 255));
    // A pixel well inside the triangle was painted with some blend of
    // the three vertex colors, all of which have alpha 255.
    let inside = img.get_rgba(280, 250);
    assert_eq!(inside.3, 255);
    assert_ne!((inside.0, inside.1, inside.2), (0, 0, 0));
}

#[test]
fn straddling_triangle_clips_to_buffer() {
    let tri = plain_triangle((-20, 10), (30, 40), (10, -5));
    let mut img = DynamicImage::new(50, 50);
    render_triangle_to_image(&tri, &mut img);
    assert_eq!(img.width, 50);
    assert_eq!(img.height, 50);
    // Pixels outside the triangle's bounding box keep their color.
    assert_eq!(img.get_rgba(49, 49), (0, 0, 0, 0));
    // Some in-bounds pixels were painted, every one with the fallback
    // color (the vertices carry no color attribute), and the number of
    // painted pixels cannot exceed the buffer's pixel count.
    let mut painted: u32 = 0;
    for y in 0..50 {
        for x in 0..50 {
            let c = img.get_rgba(x, y);
            if c != (0, 0, 0, 0) {
                painted += 1;
                assert_eq!(c, (255, 127, 0, 255));
            }
        }
    }
    assert!(painted > 0);
    assert!(painted <= 50 * 50);
}

#[test]
fn composite_is_last_writer_wins() {
    let mut img = DynamicImage::new(4, 4);
    let p = Vector2i { x: 1, y: 1 };
    let frags = vec![
        (p, color_meta(1.0, 0.0, 0.0, 1.0)),
        (p, color_meta(0.0, 1.0, 0.0, 1.0)),
    ];
    render_rasterization_to_image(frags, &mut img);
    assert_eq!(img.get_rgba(1, 1), (0, 255, 0, 255));
}

#[test]
fn composite_drops_out_of_bounds_fragments() {
    let mut img = DynamicImage::new(4, 4);
    let frags = vec![
        (Vector2i { x: -1, y: 0 }, color_meta(1.0, 1.0, 1.0, 1.0)),
        (Vector2i { x: 0, y: 4 }, color_meta(1.0, 1.0, 1.0, 1.0)),
        (Vector2i { x: 4, y: 0 }, color_meta(1.0, 1.0, 1.0, 1.0)),
        (Vector2i { x: 0, y: -7 }, color_meta(1.0, 1.0, 1.0, 1.0)),
    ];
    render_rasterization_to_image(frags, &mut img);
    for y in 0..4 {
        for x in 0..4 {
            assert_eq!(img.get_rgba(x, y), (0, 0, 0, 0));
        }
    }
}

#[test]
fn resolve_color_rounds_channels() {
    let m = color_meta(1.0, 0.5, 0.0, 1.0);
    // 0.5 * 255 = 127.5 rounds away from zero to 128.
    assert_eq!(resolve_color(&m), (255, 128, 0, 255));
    assert_eq!(resolve_color(&VertexMetadata::empty()), (255, 127, 0, 255));
}

#[test]
fn resolve_color_clamps_out_of_range_channels() {
    let m = VertexMetadata {
        world_pos: None,
        texture_coord: None,
        normal: None,
        color: Some(Vector4 { x: -SCALE, y: 3 * SCALE, z: SCALE, w: SCALE }),
    };
    assert_eq!(resolve_color(&m), (0, 255, 255, 255));
}

#[test]
fn lerp_rounds_to_nearest() {
    let a = Vector2i { x: 0, y: 0 };
    let b = Vector2i { x: 10, y: 10 };
    let mid = vector2i_lerp(&a, &b, 1, 2);
    assert_eq!((mid.x, mid.y), (5, 5));
    let c = Vector2i { x: 5, y: 0 };
    let half = vector2i_lerp(&a, &c, 1, 2);
    // 2.5 rounds away from zero to 3.
    assert_eq!((half.x, half.y), (3, 0));
}

#[test]
fn round_division_ties_away_from_zero() {
    assert_eq!(round_div_i64(5, 2), 3);
    assert_eq!(round_div_i64(-5, 2), -3);
    assert_eq!(round_div_i64(4, 2), 2);
    assert_eq!(round_div_i64(7, 3), 2);
    assert_eq!(round_div_i64(-7, 3), -2);
}

#[test]
fn image_new_set_get_roundtrip() {
    let mut img = DynamicImage::new(8, 6);
    assert_eq!(img.width, 8);
    assert_eq!(img.height, 6);
    assert_eq!(img.get_rgba(3, 4), (0, 0, 0, 0));
    img.set_rgba(3, 4, (10, 20, 30, 40));
    assert_eq!(img.get_rgba(3, 4), (10, 20, 30, 40));
    // Neighbors are untouched.
    assert_eq!(img.get_rgba(2, 4), (0, 0, 0, 0));
    assert_eq!(img.get_rgba(4, 4), (0, 0, 0, 0));
    assert_eq!(img.get_rgba(3, 3), (0, 0, 0, 0));
    assert_eq!(img.get_rgba(3, 5), (0, 0, 0, 0));
}

#[test]
fn set_black_paints_every_pixel() {
    let mut img = DynamicImage::new(5, 7);
    img.set_rgba(2, 2, (9, 9, 9, 9));
    img.set_black();
    for y in 0..7 {
        for x in 0..5 {
            assert_eq!(img.get_rgba(x, y), (0, 0, 0, 255));
        }
    }
}

#[test]
fn triangle_vertices_are_ordered() {
    let tri = plain_triangle((1, 2), (3, 4), (5, 6));
    let vs = tri.vertices();
    assert_eq!(vs.len(), 3);
    assert_eq!(vs[0], point(1, 2));
    assert_eq!(vs[1], point(3, 4));
    assert_eq!(vs[2], point(5, 6));
}

#[test]
fn polygon_vertices_are_ordered() {
    let poly = Polygon2 {
        v: vec![point(0, 0), point(4, 1), point(3, 5), point(-1, 2)],
        meta: vec![
            VertexMetadata::empty(),
            VertexMetadata::empty(),
            VertexMetadata::empty(),
            VertexMetadata::empty(),
        ],
    };
    let vs = poly.vertices();
    assert_eq!(vs, vec![point(0, 0), point(4, 1), point(3, 5), point(-1, 2)]);
}

#[test]
fn vertex_rounding_ties_away_from_zero() {
    let p = round_vertex(&Vector2 { x: SCALE / 2, y: -SCALE / 2 });
    assert_eq!((p.x, p.y), (1, -1));
    let q = round_vertex(&Vector2 { x: 3 * SCALE + SCALE / 4, y: -2 * SCALE - SCALE / 4 });
    assert_eq!((q.x, q.y), (3, -2));
}
