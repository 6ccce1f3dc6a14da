use vstd::prelude::*;

use crate::image::Image;
use crate::image::ImageSettings;
use crate::linear_algebra::Vec2;
use crate::linear_algebra::Vec4;
use rayon::iter::IntoParallelRefMutIterator;
use rayon::iter::ParallelIterator;

verus! {

/// The color a pixel holds before evaluation: fully transparent black.
pub open spec fn initial_color() -> Vec4<u8> {
    Vec4 { x: 0, y: 0, z: 0, w: 0 }
}

/// The color written for a ray that intersects the scene object (a tangent
/// touch included): opaque black.
pub open spec fn hit_color() -> Vec4<u8> {
    Vec4 { x: 0, y: 0, z: 0, w: 255 }
}

/// The color written for a ray that misses the scene object: opaque white.
pub open spec fn miss_color() -> Vec4<u8> {
    Vec4 { x: 255, y: 255, z: 255, w: 255 }
}

/// The color a pixel's evaluation resolves to, from the intersection
/// outcome of its ray.
pub open spec fn color_for_hit(hit: bool) -> Vec4<u8> {
    if hit {
        hit_color()
    } else {
        miss_color()
    }
}

/// One pixel's work item: the settings the render runs under, the pixel's
/// integer screen position, and the color its evaluation resolves to.
///
/// The scene is not held here. Under the uniform projection policy every
/// pixel casts the identical ray (origin `(0,0,0)`, direction `(0,0,1)`)
/// against the scene's first sphere, so evaluation receives that single
/// shared intersection outcome as a plain argument instead of re-deriving
/// it from scene geometry.
#[derive(Clone, Copy)]
pub struct Pixel {
    pub settings: ImageSettings,
    pub position: Vec2<u32>,
    pub result_color: Vec4<u8>,
}

/// The pixel as it stands once evaluated against the intersection outcome
/// `hit`: the result color is overwritten, everything else is kept.
pub open spec fn spec_calculated(p: Pixel, hit: bool) -> Pixel {
    Pixel { result_color: color_for_hit(hit), ..p }
}

/// Signed center-relative offset of a screen coordinate within an extent:
/// `coord - extent / 2`. Computed in signed arithmetic so that coordinates
/// left of or above the image center yield a negative offset rather than
/// wrapping around.
pub fn center_offset(coord: u32, extent: u32) -> (r: i64)
    ensures
        r == coord as int - (extent as int) / 2,
{
    coord as i64 - (extent as i64) / 2
}

impl Pixel {
    /// Builds the work item for screen coordinate `(x, y)`, its result
    /// color still unevaluated.
    pub fn from(settings: ImageSettings, x: u32, y: u32) -> (r: Pixel)
        ensures
            r.settings == settings,
            r.position.x == x,
            r.position.y == y,
            r.result_color == initial_color(),
    {
        Pixel { settings, position: Vec2::from(x, y), result_color: Vec4::from(0, 0, 0, 0) }
    }

    /// Evaluates this pixel against `hit`, the intersection outcome of the
    /// shared fixed ray, and writes the resolved color: opaque black on a
    /// hit, opaque white on a miss. The center-relative offset of the pixel
    /// is computed, but under the uniform projection policy it does not
    /// enter the ray, so the color depends on `hit` alone.
    pub fn calculate(&mut self, hit: bool)
        ensures
            *final(self) == spec_calculated(*old(self), hit),
    {
        let _x_center: i64 = center_offset(self.position.x, self.settings.width);
        let _y_center: i64 = center_offset(self.position.y, self.settings.height);
        self.result_color = if hit {
            Vec4::from(0, 0, 0, 255)
        } else {
            Vec4::from(255, 255, 255, 255)
        };
    }

    /// Hands the evaluated color out of the drained work item.
    pub fn get_color(self) -> (r: Vec4<u8>)
        ensures
            r == self.result_color,
    {
        self.result_color
    }
}

/// Evaluating one pixel is idempotent: a second evaluation against the
/// same intersection outcome overwrites the result color with the same
/// value, so the pixel is unchanged.
pub proof fn lemma_calculate_idempotent(p: Pixel, hit: bool)
    ensures
        spec_calculated(spec_calculated(p, hit), hit) == spec_calculated(p, hit),
{
}

/// A whole pixel buffer as it stands once every element is evaluated
/// against the shared intersection outcome `hit`.
pub open spec fn evaluated(pixels: Seq<Pixel>, hit: bool) -> Seq<Pixel> {
    pixels.map_values(|p: Pixel| spec_calculated(p, hit))
}

/// Sequential dispatch: evaluates every pixel in place, in flat index
/// order. Its postcondition is word for word that of
/// `calculate_all_parallel`, so the two dispatch paths produce identical
/// buffers.
pub fn calculate_all(pixels: &mut Vec<Pixel>, hit: bool)
    ensures
        final(pixels)@ == evaluated(old(pixels)@, hit),
{
    let ghost orig: Seq<Pixel> = pixels@;
    let n: usize = pixels.len();
    let mut i: usize = 0;
    while i < n
        invariant
            i <= n,
            n == pixels@.len(),
            pixels@.len() == orig.len(),
            forall|j: int| 0 <= j < i ==> pixels@[j] == spec_calculated(orig[j], hit),
            forall|j: int| i <= j < n ==> pixels@[j] == orig[j],
        decreases n - i,
    {
        let mut p: Pixel = pixels[i];
        p.calculate(hit);
        pixels[i] = p;
        i = i + 1;
    }
    assert(pixels@ =~= evaluated(orig, hit));
}

/// Relies on rayon's `par_iter_mut` (through `&mut Vec<Pixel>` as
/// `IntoParallelIterator`) and `ParallelIterator::for_each`: the closure
/// runs on a mutable reference to every element of the vector, each element
/// exactly once, each owned by a single worker, and the vector's length and
/// element order are untouched. The closure itself calls the verified
/// `Pixel::calculate`, whose contract fixes each element's new value.
#[verifier::external_body]
fn par_for_each_calculate(pixels: &mut Vec<Pixel>, hit: bool)
    ensures
        final(pixels)@ == evaluated(old(pixels)@, hit),
{
    pixels.par_iter_mut().for_each(|p| p.calculate(hit));
}

/// Parallel dispatch: evaluates every pixel, partitioned across rayon's
/// worker threads; no pixel's evaluation reads another's state. Its
/// postcondition is word for word that of `calculate_all`, so the parallel
/// buffer is byte-identical to the sequential one.
pub fn calculate_all_parallel(pixels: &mut Vec<Pixel>, hit: bool)
    ensures
        final(pixels)@ == evaluated(old(pixels)@, hit),
{
    par_for_each_calculate(pixels, hit);
}

/// Pixel evaluation is partition-independent: evaluating two stretches of
/// the buffer separately and concatenating them is the same as evaluating
/// the concatenation. Workers may therefore split the buffer at any
/// boundaries without changing the result the sequential order produces.
pub proof fn lemma_evaluated_concat(a: Seq<Pixel>, b: Seq<Pixel>, hit: bool)
    ensures
        evaluated(a + b, hit) == evaluated(a, hit) + evaluated(b, hit),
{
    assert(evaluated(a + b, hit) =~= evaluated(a, hit) + evaluated(b, hit));
}

/// The unevaluated work item for screen coordinate `(x, y)`.
pub open spec fn spec_pixel_at(settings: ImageSettings, x: u32, y: u32) -> Pixel {
    Pixel {
        settings,
        position: Vec2 { x, y },
        result_color: initial_color(),
    }
}

/// The full pixel buffer in row-major order (y outer, x inner): the entry
/// at flat index `i` is the pixel for column `i % width` and row
/// `i / width`.
pub open spec fn pixel_grid(settings: ImageSettings) -> Seq<Pixel> {
    Seq::new(
        (settings.width * settings.height) as nat,
        |i: int|
            spec_pixel_at(
                settings,
                (i % (settings.width as int)) as u32,
                (i / (settings.width as int)) as u32,
            ),
    )
}

/// Row-major indexing is a bijection between screen coordinates and flat
/// indices: the flat index `y * width + x` lies inside the buffer and
/// decomposes back into column `x` and row `y`.
pub proof fn lemma_flat_index(x: int, y: int, w: int, h: int)
    requires
        0 <= x < w,
        0 <= y < h,
    ensures
        0 <= y * w + x < h * w,
        (y * w + x) % w == x,
        (y * w + x) / w == y,
{
    assert(0 <= y * w + x < h * w) by (nonlinear_arith)
        requires
            0 <= x < w,
            0 <= y < h,
    ;
    vstd::arithmetic::div_mod::lemma_fundamental_div_mod_converse(y * w + x, w, y, x);
}

/// The work item for screen coordinate `(x, y)` stands at flat index
/// `y * width + x` of the row-major grid.
pub proof fn lemma_grid_index(settings: ImageSettings, x: u32, y: u32)
    requires
        x < settings.width,
        y < settings.height,
    ensures
        pixel_grid(settings)[y * settings.width + x] == spec_pixel_at(settings, x, y),
{
    lemma_flat_index(x as int, y as int, settings.width as int, settings.height as int);
    assert(settings.height * settings.width == settings.width * settings.height)
        by (nonlinear_arith);
}

/// Builds the pixel grid for one render: `width * height` unevaluated work
/// items in row-major order, the pixel for screen coordinate `(x, y)` at
/// flat index `y * width + x`.
pub fn make_pixels(settings: ImageSettings) -> (r: Vec<Pixel>)
    ensures
        r@ == pixel_grid(settings),
        r@.len() == settings.width * settings.height,
{
    let mut pixels: Vec<Pixel> = Vec::new();
    let mut y: u32 = 0;
    while y < settings.height
        invariant
            y <= settings.height,
            pixels@.len() == y * settings.width,
            forall|i: int| 0 <= i < pixels@.len() ==> pixels@[i] == #[trigger] pixel_grid(settings)[i],
        decreases settings.height - y,
    {
        let mut x: u32 = 0;
        while x < settings.width
            invariant
                y < settings.height,
                x <= settings.width,
                pixels@.len() == y * settings.width + x,
                forall|i: int| 0 <= i < pixels@.len() ==> pixels@[i] == #[trigger] pixel_grid(settings)[i],
            decreases settings.width - x,
        {
            proof {
                lemma_flat_index(x as int, y as int, settings.width as int, settings.height as int);
            }
            pixels.push(Pixel::from(settings, x, y));
            x = x + 1;
        }
        proof {
            assert(y * settings.width + settings.width == (y + 1) * settings.width)
                by (nonlinear_arith);
        }
        y = y + 1;
    }
    proof {
        assert(settings.height * settings.width == settings.width * settings.height)
            by (nonlinear_arith);
        assert(pixels@ =~= pixel_grid(settings));
    }
    pixels
}

/// The colors of a pixel buffer, in the buffer's order.
pub open spec fn colors_of(pixels: Seq<Pixel>) -> Seq<Vec4<u8>> {
    pixels.map_values(|p: Pixel| p.result_color)
}

/// Drains evaluated pixels into the flat color buffer, keeping the flat
/// index order.
pub fn collect_colors(pixels: Vec<Pixel>) -> (r: Vec<Vec4<u8>>)
    ensures
        r@ == colors_of(pixels@),
{
    let mut colors: Vec<Vec4<u8>> = Vec::new();
    let n: usize = pixels.len();
    let mut i: usize = 0;
    while i < n
        invariant
            i <= n,
            n == pixels@.len(),
            colors@.len() == i,
            forall|j: int| 0 <= j < i ==> colors@[j] == #[trigger] pixels@[j].result_color,
        decreases n - i,
    {
        let p: Pixel = pixels[i];
        colors.push(p.get_color());
        i = i + 1;
    }
    proof {
        assert(colors@ =~= colors_of(pixels@));
    }
    colors
}

/// The color buffer a full render produces: the row-major pixel grid,
/// every entry evaluated against the shared intersection outcome `hit`.
pub open spec fn rendered_colors(settings: ImageSettings, hit: bool) -> Seq<Vec4<u8>> {
    colors_of(evaluated(pixel_grid(settings), hit))
}

/// Renders one frame: builds the row-major pixel grid, dispatches the
/// per-pixel evaluation across rayon's workers, and assembles the flat
/// color buffer into an image. `hit` is the intersection outcome of the
/// single shared ray against the scene's first sphere, which the caller
/// supplies; under the uniform projection policy it is the one geometric
/// input of the frame.
pub fn render(settings: ImageSettings, hit: bool) -> (r: Image)
    ensures
        r.settings == settings,
        r.pixel_data@ == rendered_colors(settings, hit),
        r.pixel_data@.len() == settings.width * settings.height,
{
    let mut pixels: Vec<Pixel> = make_pixels(settings);
    calculate_all_parallel(&mut pixels, hit);
    let colors: Vec<Vec4<u8>> = collect_colors(pixels);
    Image::from(colors, settings)
}

/// The shape of the rendered buffer: it holds one color per pixel,
/// `width * height` in all, and the color at flat index `y * width + x`
/// is the evaluated color of the pixel at screen coordinate `(x, y)` —
/// under the uniform projection policy, the shared hit-or-miss color.
pub proof fn lemma_buffer_shape(settings: ImageSettings, hit: bool, x: u32, y: u32)
    requires
        x < settings.width,
        y < settings.height,
    ensures
        rendered_colors(settings, hit).len() == settings.width * settings.height,
        rendered_colors(settings, hit)[y * settings.width + x] == color_for_hit(hit),
{
    lemma_flat_index(x as int, y as int, settings.width as int, settings.height as int);
    assert(settings.height * settings.width == settings.width * settings.height)
        by (nonlinear_arith);
}

} // verus!
