//! RGBA rasters as plain bytes, and the image-crate operations on them.
use vstd::prelude::*;

verus! {

/// An RGBA raster: `width * height` pixels of four bytes each, row by row.
pub struct Raster {
    pub width: u32,
    pub height: u32,
    pub data: Vec<u8>,
}

/// The four bytes of a colour, in RGBA order.
pub open spec fn rgba(c: (u8, u8, u8, u8)) -> Seq<u8> {
    seq![c.0, c.1, c.2, c.3]
}

/// The pixel at column `x`, row `y` of row-major RGBA bytes `data` of the given width.
pub open spec fn pixel_at(data: Seq<u8>, width: nat, x: nat, y: nat) -> Seq<u8> {
    data.subrange(4 * (y * width + x) as int, (4 * (y * width + x) + 4) as int)
}

/// The pixel that results from drawing `top` over `bottom` when `top` is
/// neither fully opaque nor fully transparent.
pub uninterp spec fn blend_over(bottom: Seq<u8>, top: Seq<u8>) -> Seq<u8>;

/// `top` drawn over `bottom`: an opaque pixel replaces, a transparent one
/// leaves `bottom` as it was, anything in between is blended.
pub open spec fn drawn_over(bottom: Seq<u8>, top: Seq<u8>) -> Seq<u8> {
    if top[3] == 255 {
        top
    } else if top[3] == 0 {
        bottom
    } else {
        blend_over(bottom, top)
    }
}

/// What the image crate decodes a byte blob to: width, height and RGBA bytes,
/// or nothing when the blob is not an image it can read.
pub uninterp spec fn decoded_image(bytes: Seq<u8>) -> Option<(u32, u32, Seq<u8>)>;

/// A raster of the given size fits in memory as one byte buffer.
pub open spec fn fits(width: u32, height: u32) -> bool {
    4 * (width as nat) * (height as nat) <= usize::MAX
}

impl Raster {
    /// The buffer holds exactly four bytes per pixel.
    pub open spec fn wf(&self) -> bool {
        self.data@.len() == 4 * (self.width as nat) * (self.height as nat)
    }

    /// The pixel at column `x`, row `y`.
    pub open spec fn pixel(&self, x: nat, y: nat) -> Seq<u8> {
        pixel_at(self.data@, self.width as nat, x, y)
    }
}

/// Relies on `image::load_from_memory` followed by `DynamicImage::to_rgba8`:
/// decodes any supported format to RGBA, or fails.
#[verifier::external_body]
pub(crate) fn decode_rgba(bytes: &[u8]) -> (r: Option<Raster>)
    ensures
        match r {
            Some(img) => img.wf() && decoded_image(bytes@) == Some(
                (img.width, img.height, img.data@),
            ),
            None => decoded_image(bytes@) is None,
        },
{
    match image::load_from_memory(bytes) {
        Ok(img) => {
            let rgba = img.to_rgba8();
            Some(Raster { width: rgba.width(), height: rgba.height(), data: rgba.into_raw() })
        },
        Err(_) => None,
    }
}

/// Relies on `image::RgbaImage::from_pixel`: a `width` by `height` raster with
/// every pixel set to `fill`.
#[verifier::external_body]
pub(crate) fn solid_canvas(width: u32, height: u32, fill: (u8, u8, u8, u8)) -> (r: Raster)
    requires
        fits(width, height),
    ensures
        r.wf(),
        r.width == width,
        r.height == height,
        forall|x: nat, y: nat|
            x < width && y < height ==> #[trigger] r.pixel(x, y) == rgba(fill),
{
    let img = image::RgbaImage::from_pixel(width, height, image::Rgba([fill.0, fill.1, fill.2, fill.3]));
    Raster { width, height, data: img.into_raw() }
}

/// Relies on `image::imageops::overlay` at offset (0, 0): each pixel of `top`
/// is blended onto the pixel below it; pixels of `bottom` outside `top` stay.
#[verifier::external_body]
pub(crate) fn overlay_top_left(bottom: &mut Raster, top: &Raster)
    requires
        old(bottom).wf(),
        top.wf(),
        top.width <= old(bottom).width,
        top.height <= old(bottom).height,
    ensures
        final(bottom).wf(),
        final(bottom).width == old(bottom).width,
        final(bottom).height == old(bottom).height,
        forall|x: nat, y: nat|
            x < old(bottom).width && y < old(bottom).height ==> #[trigger] final(bottom).pixel(x, y)
                == if x < top.width && y < top.height {
                if top.pixel(x, y)[3] == 255 {
                    top.pixel(x, y)
                } else if top.pixel(x, y)[3] == 0 {
                    old(bottom).pixel(x, y)
                } else {
                    blend_over(old(bottom).pixel(x, y), top.pixel(x, y))
                }
            } else {
                old(bottom).pixel(x, y)
            },
{
    let upper = image::RgbaImage::from_raw(top.width, top.height, top.data.clone()).unwrap();
    let data = std::mem::take(&mut bottom.data);
    let mut lower = image::RgbaImage::from_raw(bottom.width, bottom.height, data).unwrap();
    image::imageops::overlay(&mut lower, &upper, 0, 0);
    bottom.data = lower.into_raw();
}

/// Fully opaque magenta, the colour of padding.
pub open spec fn magenta() -> Seq<u8> {
    seq![255u8, 0u8, 255u8, 255u8]
}

/// The padding colour: opaque magenta, which no real interface is likely to
/// show, so a change of size stands out as a solid band in the diff.
pub const PAD_COLOUR: (u8, u8, u8, u8) = (255, 0, 255, 255);

/// Paste `src` onto a magenta canvas of `w x h`, anchored at top-left.
pub fn pad_to(src: &Raster, w: u32, h: u32) -> (r: Raster)
    requires
        src.wf(),
        src.width <= w,
        src.height <= h,
        fits(w, h),
    ensures
        r.wf(),
        r.width == w,
        r.height == h,
        forall|x: nat, y: nat|
            x < w && y < h ==> #[trigger] r.pixel(x, y) == if x < src.width && y < src.height {
                drawn_over(magenta(), src.pixel(x, y))
            } else {
                magenta()
            },
{
    let mut canvas = solid_canvas(w, h, PAD_COLOUR);
    assert(rgba(PAD_COLOUR) == magenta());
    let ghost before = canvas;
    overlay_top_left(&mut canvas, src);
    assert forall|x: nat, y: nat| x < w && y < h implies #[trigger] canvas.pixel(x, y) == if x
        < src.width && y < src.height {
        drawn_over(magenta(), src.pixel(x, y))
    } else {
        magenta()
    } by {
        assert(before.pixel(x, y) == magenta());
    }
    canvas
}

} // verus!
