use vstd::prelude::*;

use crate::linear_algebra::Vec4;

verus! {

/// Width and height of the output raster in pixels, both positive. Fixed
/// for the duration of one render and shared, read-only, by every pixel
/// work item.
#[derive(Clone, Copy)]
pub struct ImageSettings {
    pub width: u32,
    pub height: u32,
}

impl ImageSettings {
    /// True of settings a render may run under: a raster with at least one
    /// column and one row.
    pub open spec fn wf(self) -> bool {
        self.width > 0 && self.height > 0
    }

    /// Builds the settings for one render.
    pub fn from(width: u32, height: u32) -> (r: ImageSettings)
        requires
            width > 0,
            height > 0,
        ensures
            r.width == width,
            r.height == height,
            r.wf(),
    {
        ImageSettings { width, height }
    }
}

/// A finished raster: the flat, row-major color buffer, one color per
/// pixel, and the settings it was rendered under.
pub struct Image {
    pub pixel_data: Vec<Vec4<u8>>,
    pub settings: ImageSettings,
}

/// The byte stream an RGBA encoder consumes: four bytes per color — the
/// R, G, B and A channels, in that order — in increasing pixel index.
pub open spec fn rgba_flat(colors: Seq<Vec4<u8>>) -> Seq<u8> {
    Seq::new(
        (4 * colors.len()) as nat,
        |i: int|
            {
                let c = colors[i / 4];
                if i % 4 == 0 {
                    c.x
                } else if i % 4 == 1 {
                    c.y
                } else if i % 4 == 2 {
                    c.z
                } else {
                    c.w
                }
            },
    )
}

/// The four bytes of the color at pixel index `i` stand at byte indices
/// `4 * i` through `4 * i + 3`, channels in R, G, B, A order.
pub proof fn lemma_rgba_flat_at(colors: Seq<Vec4<u8>>, i: int)
    requires
        0 <= i < colors.len(),
    ensures
        rgba_flat(colors)[4 * i] == colors[i].x,
        rgba_flat(colors)[4 * i + 1] == colors[i].y,
        rgba_flat(colors)[4 * i + 2] == colors[i].z,
        rgba_flat(colors)[4 * i + 3] == colors[i].w,
{
}

impl Image {
    /// Wraps an assembled color buffer together with its settings.
    pub fn from(pixel_data: Vec<Vec4<u8>>, settings: ImageSettings) -> (r: Image)
        ensures
            r.pixel_data@ == pixel_data@,
            r.settings == settings,
    {
        Image { pixel_data, settings }
    }

    /// Flattens the color buffer into the byte stream an RGBA encoder
    /// consumes: four bytes per pixel, R, G, B, A, in pixel index order.
    pub fn rgba_bytes(&self) -> (r: Vec<u8>)
        ensures
            r@ == rgba_flat(self.pixel_data@),
    {
        let mut data: Vec<u8> = Vec::new();
        let n: usize = self.pixel_data.len();
        let mut i: usize = 0;
        while i < n
            invariant
                i <= n,
                n == self.pixel_data@.len(),
                data@.len() == 4 * i,
                forall|j: int| 0 <= j < data@.len() ==> data@[j] == #[trigger] rgba_flat(
                    self.pixel_data@,
                )[j],
            decreases n - i,
        {
            let pix: Vec4<u8> = self.pixel_data[i];
            data.push(pix.x);
            data.push(pix.y);
            data.push(pix.z);
            data.push(pix.w);
            proof {
                lemma_rgba_flat_at(self.pixel_data@, i as int);
            }
            i = i + 1;
        }
        proof {
            assert(data@ =~= rgba_flat(self.pixel_data@));
        }
        data
    }
}

} // verus!
