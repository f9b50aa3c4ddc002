use vstd::prelude::*;
use crate::image::DynamicImage;
use crate::primitives::{Triangle2, Vector2, Vector2i, Vector4, VertexMetadata};
use crate::rasterization::{rasterize, spec_rasterize};
use crate::util::{lemma_rounded_ratio_bounds, round_div_i128, rounded_ratio, SCALE};

verus! {

/// The fixed color a fragment without a color attribute is painted with.
pub const DEBUG_COLOR_R: u8 = 255;

/// Green channel of the fallback color.
pub const DEBUG_COLOR_G: u8 = 127;

/// Blue channel of the fallback color.
pub const DEBUG_COLOR_B: u8 = 0;

/// Alpha channel of the fallback color.
pub const DEBUG_COLOR_A: u8 = 255;

/// An 8-bit channel from a fixed-point channel value: values in
/// `[0, 1]` scale to `round(value * 255)`; values outside clamp to
/// the nearest end.
pub open spec fn spec_channel_byte(v: int) -> int {
    if v < 0 {
        0
    } else if v > SCALE as int {
        255
    } else {
        rounded_ratio(255 * v, SCALE as int)
    }
}

/// The RGBA8 color a fragment resolves to: its color attribute
/// converted channel by channel if it has one, the fixed fallback
/// color otherwise.
pub open spec fn spec_resolve_color(m: VertexMetadata) -> (u8, u8, u8, u8) {
    match m.color {
        Some(c) => (
            spec_channel_byte(c.x as int) as u8,
            spec_channel_byte(c.y as int) as u8,
            spec_channel_byte(c.z as int) as u8,
            spec_channel_byte(c.w as int) as u8,
        ),
        None => (DEBUG_COLOR_R, DEBUG_COLOR_G, DEBUG_COLOR_B, DEBUG_COLOR_A),
    }
}

/// Converts one fixed-point channel value to its 8-bit channel.
fn channel_byte(v: i128) -> (b: u8)
    ensures
        b as int == spec_channel_byte(v as int),
{
    if v < 0 {
        0
    } else if v > SCALE {
        255
    } else {
        proof {
            lemma_rounded_ratio_bounds(255 * (v as int), SCALE as int, 0, 255);
        }
        round_div_i128(255 * v, SCALE) as u8
    }
}

/// Resolves a fragment's attributes to the RGBA8 color it is drawn with.
pub fn resolve_color(m: &VertexMetadata) -> (c: (u8, u8, u8, u8))
    ensures
        c == spec_resolve_color(*m),
{
    match m.color {
        Some(col) => (
            channel_byte(col.x),
            channel_byte(col.y),
            channel_byte(col.z),
            channel_byte(col.w),
        ),
        None => (DEBUG_COLOR_R, DEBUG_COLOR_G, DEBUG_COLOR_B, DEBUG_COLOR_A),
    }
}

/// The fragment lands exactly on pixel `(x, y)` of a `w` by `h` buffer.
pub open spec fn spec_frag_covers(
    f: (Vector2i, VertexMetadata),
    x: int,
    y: int,
    w: int,
    h: int,
) -> bool {
    0 <= f.0.x < w && 0 <= f.0.y < h && f.0.x == x && f.0.y == y
}

/// The attributes of the last fragment of `frags` that lands on pixel
/// `(x, y)` of a `w` by `h` buffer, if any: compositing is
/// last-writer-wins, and out-of-bounds fragments are dropped.
pub open spec fn spec_last_meta_at(
    frags: Seq<(Vector2i, VertexMetadata)>,
    x: int,
    y: int,
    w: int,
    h: int,
) -> Option<VertexMetadata>
    decreases frags.len(),
{
    if frags.len() == 0 {
        None
    } else if spec_frag_covers(frags.last(), x, y, w, h) {
        Some(frags.last().1)
    } else {
        spec_last_meta_at(frags.drop_last(), x, y, w, h)
    }
}

/// What pixel `(x, y)` of `img` holds after compositing `frags` into
/// it: the resolved color of the last fragment that landed there, or
/// its old color if none did.
pub open spec fn spec_composite_pixel(
    frags: Seq<(Vector2i, VertexMetadata)>,
    img: DynamicImage,
    x: int,
    y: int,
) -> (u8, u8, u8, u8) {
    match spec_last_meta_at(frags, x, y, img.width as int, img.height as int) {
        Some(m) => spec_resolve_color(m),
        None => img.spec_pixel(x, y),
    }
}

/// A pixel no fragment lands on is untouched by compositing: its
/// composite value is its old value. Together with the bounds checks
/// of the composer this is the clipping guarantee: only in-bounds
/// pixels that some fragment covers are ever written.
pub proof fn lemma_no_fragment_no_write(
    frags: Seq<(Vector2i, VertexMetadata)>,
    x: int,
    y: int,
    w: int,
    h: int,
)
    requires
        forall|i: int|
            0 <= i < frags.len() ==> !((#[trigger] frags[i]).0.x == x && frags[i].0.y == y),
    ensures
        spec_last_meta_at(frags, x, y, w, h) == None::<VertexMetadata>,
    decreases frags.len(),
{
    if frags.len() > 0 {
        assert(frags.last() == frags[frags.len() - 1]);
        lemma_no_fragment_no_write(frags.drop_last(), x, y, w, h);
    }
}

/// Writes a fragment list into the buffer: each in-bounds fragment's
/// pixel gets that fragment's resolved color, later fragments
/// overwriting earlier ones; out-of-bounds fragments are silently
/// dropped; every other pixel keeps its color.
#[verifier::loop_isolation(false)]
pub fn render_rasterization_to_image(
    points: Vec<(Vector2i, VertexMetadata)>,
    image: &mut DynamicImage,
)
    requires
        old(image).wf(),
    ensures
        final(image).wf(),
        final(image).width == old(image).width,
        final(image).height == old(image).height,
        forall|x: int, y: int|
            0 <= x < old(image).width && 0 <= y < old(image).height ==> final(image).spec_pixel(
                x,
                y,
            ) == spec_composite_pixel(points@, *old(image), x, y),
{
    let ghost w = old(image).width as int;
    let ghost h = old(image).height as int;
    let mut i: usize = 0;
    while i < points.len()
        invariant
            0 <= i <= points@.len(),
            image.wf(),
            image.width == old(image).width,
            image.height == old(image).height,
            forall|x: int, y: int|
                0 <= x < w && 0 <= y < h ==> image.spec_pixel(x, y) == spec_composite_pixel(
                    points@.take(i as int),
                    *old(image),
                    x,
                    y,
                ),
        decreases points@.len() - i,
    {
        let p = points[i];
        let ghost before = *image;
        if p.0.x >= 0 && p.0.y >= 0 && p.0.x < image.width as i64 && p.0.y < image.height as i64 {
            let c = resolve_color(&p.1);
            image.set_rgba(p.0.x as u32, p.0.y as u32, c);
        }
        proof {
            let taken = points@.take(i + 1);
            assert(taken.last() == points@[i as int]);
            assert(taken.drop_last() =~= points@.take(i as int));
            assert forall|x: int, y: int| 0 <= x < w && 0 <= y < h implies image.spec_pixel(x, y)
                == spec_composite_pixel(taken, *old(image), x, y) by {
                if spec_frag_covers(points@[i as int], x, y, w, h) {
                    assert(image.spec_pixel(x, y) == spec_resolve_color(points@[i as int].1));
                } else {
                    assert(image.spec_pixel(x, y) == before.spec_pixel(x, y));
                }
            }
        }
        i = i + 1;
    }
    proof {
        assert(points@.take(points@.len() as int) =~= points@);
    }
}

/// Rasterizes one triangle and composites its fragments into the buffer.
pub fn render_triangle_to_image(triangle: &Triangle2, image: &mut DynamicImage)
    requires
        triangle.wf(),
        old(image).wf(),
    ensures
        final(image).wf(),
        final(image).width == old(image).width,
        final(image).height == old(image).height,
        forall|x: int, y: int|
            0 <= x < old(image).width && 0 <= y < old(image).height ==> final(image).spec_pixel(
                x,
                y,
            ) == spec_composite_pixel(spec_rasterize(*triangle), *old(image), x, y),
{
    let ras = rasterize(triangle);
    render_rasterization_to_image(ras, image);
}

/// Paints every pixel of the buffer opaque black.
pub fn clear_image(image: &mut DynamicImage)
    requires
        old(image).wf(),
    ensures
        final(image).wf(),
        final(image).width == old(image).width,
        final(image).height == old(image).height,
        forall|x: int, y: int|
            0 <= x < old(image).width && 0 <= y < old(image).height ==> final(image).spec_pixel(
                x,
                y,
            ) == ((0u8, 0u8, 0u8, 255u8)),
{
    image.set_black()
}

/// The fixed demonstration scene: one triangle at pixels (100, 250),
/// (300, 300), (300, 100) whose vertices carry the colors
/// (1, 0.5, 0, 1), (0, 1, 0.5, 1) and (0.5, 0, 1, 1).
pub open spec fn spec_scene_triangle() -> Triangle2 {
    Triangle2 {
        v: [
            (Vector2 { x: 104857600, y: 262144000 }),
            (Vector2 { x: 314572800, y: 314572800 }),
            (Vector2 { x: 314572800, y: 104857600 }),
        ],
        meta: [
            (VertexMetadata {
                world_pos: None,
                texture_coord: None,
                normal: None,
                color: Some((Vector4 { x: 1048576, y: 524288, z: 0, w: 1048576 })),
            }),
            (VertexMetadata {
                world_pos: None,
                texture_coord: None,
                normal: None,
                color: Some((Vector4 { x: 0, y: 1048576, z: 524288, w: 1048576 })),
            }),
            (VertexMetadata {
                world_pos: None,
                texture_coord: None,
                normal: None,
                color: Some((Vector4 { x: 524288, y: 0, z: 1048576, w: 1048576 })),
            }),
        ],
    }
}

/// Builds the fixed demonstration scene's triangle.
pub fn scene_triangle() -> (t: Triangle2)
    ensures
        t == spec_scene_triangle(),
        t.wf(),
{
    let t = Triangle2 {
        v: [
            Vector2 { x: 104857600, y: 262144000 },
            Vector2 { x: 314572800, y: 314572800 },
            Vector2 { x: 314572800, y: 104857600 },
        ],
        meta: [
            VertexMetadata {
                world_pos: None,
                texture_coord: None,
                normal: None,
                color: Some(Vector4 { x: 1048576, y: 524288, z: 0, w: 1048576 }),
            },
            VertexMetadata {
                world_pos: None,
                texture_coord: None,
                normal: None,
                color: Some(Vector4 { x: 0, y: 1048576, z: 524288, w: 1048576 }),
            },
            VertexMetadata {
                world_pos: None,
                texture_coord: None,
                normal: None,
                color: Some(Vector4 { x: 524288, y: 0, z: 1048576, w: 1048576 }),
            },
        ],
    };
    t
}

/// Renders the fixed demonstration scene into the buffer: rasterizes
/// its one triangle and composites the fragments.
pub fn render_scene_to_image(image: &mut DynamicImage)
    requires
        old(image).wf(),
    ensures
        final(image).wf(),
        final(image).width == old(image).width,
        final(image).height == old(image).height,
        forall|x: int, y: int|
            0 <= x < old(image).width && 0 <= y < old(image).height ==> final(image).spec_pixel(
                x,
                y,
            ) == spec_composite_pixel(
                spec_rasterize(spec_scene_triangle()),
                *old(image),
                x,
                y,
            ),
{
    let tri = scene_triangle();
    render_triangle_to_image(&tri, image);
}

} // verus!
