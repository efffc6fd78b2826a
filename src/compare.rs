//! Two-phase image comparison: a byte-identical fast path, then decoding and
//! dimension reconciliation ahead of the perceptual engine, whose pixel count
//! is turned into the final result here.
use vstd::prelude::*;

use crate::raster::{decode_rgba, decoded_image, drawn_over, fits, magenta, pad_to, Raster};

verus! {

/// Why two blobs could not be compared.
#[derive(Debug, Clone, Copy, PartialEq, Eq, Structural)]
pub enum CompareError {
    /// The reference blob is not a readable image.
    DecodeReference,
    /// The current blob is not a readable image.
    DecodeCurrent,
    /// The common canvas of the two images does not fit in memory.
    CanvasTooLarge,
}

impl CompareError {
    /// The description of the error.
    pub open spec fn text(&self) -> Seq<char> {
        match self {
            CompareError::DecodeReference => "Failed to decode reference PNG"@,
            CompareError::DecodeCurrent => "Failed to decode current PNG"@,
            CompareError::CanvasTooLarge => "Images too large to pad to a common size"@,
        }
    }

    /// A human-readable description of the error.
    pub fn message(&self) -> (r: String)
        ensures
            r@ == self.text(),
    {
        match self {
            CompareError::DecodeReference => String::from_str("Failed to decode reference PNG"),
            CompareError::DecodeCurrent => String::from_str("Failed to decode current PNG"),
            CompareError::CanvasTooLarge => String::from_str(
                "Images too large to pad to a common size",
            ),
        }
    }
}

/// Two decoded rasters of the same size, ready for the perceptual engine.
pub struct DecodedPair {
    pub left: Raster,
    pub right: Raster,
    /// `Some((ref_w, ref_h, cur_w, cur_h))` when the decoded sizes differed.
    pub dimension_mismatch: Option<(u32, u32, u32, u32)>,
}

impl DecodedPair {
    /// Both rasters are well formed and of one size.
    pub open spec fn wf(&self) -> bool {
        &&& self.left.wf()
        &&& self.right.wf()
        &&& self.left.width == self.right.width
        &&& self.left.height == self.right.height
    }
}

/// The outcome of the first phase.
pub enum Prepared {
    /// The blobs are byte-identical: nothing to decode.
    Identical,
    /// The blobs differ and were decoded (and padded to a common size).
    Decoded(DecodedPair),
}

/// Result of a comparison.
pub struct CompareResult {
    pub is_match: bool,
    pub diff_pixels: u64,
    /// Pixels compared; zero on the byte-identical path, which does not decode.
    pub total_pixels: u64,
    /// The perceptual engine produced a visual diff image.
    pub has_diff_image: bool,
    /// `Some((ref_w, ref_h, cur_w, cur_h))` when images have different dimensions.
    pub dimension_mismatch: Option<(u32, u32, u32, u32)>,
}

/// The size of the common canvas of two sizes.
pub open spec fn common_size(a: (u32, u32), b: (u32, u32)) -> (u32, u32) {
    (if a.0 >= b.0 { a.0 } else { b.0 }, if a.1 >= b.1 { a.1 } else { b.1 })
}

/// `r` is `src` padded to `w x h`: `src` at the top-left, magenta elsewhere.
pub open spec fn padded_from(r: Raster, src: (u32, u32, Seq<u8>), w: u32, h: u32) -> bool {
    &&& r.wf()
    &&& r.width == w
    &&& r.height == h
    &&& forall|x: nat, y: nat|
        x < w && y < h ==> #[trigger] r.pixel(x, y) == if x < src.0 && y < src.1 {
            drawn_over(magenta(), pixel_of(src, x, y))
        } else {
            magenta()
        }
}

/// The pixel at `(x, y)` of a decoded image.
pub open spec fn pixel_of(img: (u32, u32, Seq<u8>), x: nat, y: nat) -> Seq<u8> {
    crate::raster::pixel_at(img.2, img.0 as nat, x, y)
}

/// `r` holds exactly the decoded image `img`.
pub open spec fn holds_image(r: Raster, img: (u32, u32, Seq<u8>)) -> bool {
    r.wf() && r.width == img.0 && r.height == img.1 && r.data@ == img.2
}

/// What the first phase yields for a reference and a current blob.
pub open spec fn prepared_ok(reference: Seq<u8>, current: Seq<u8>, r: Result<Prepared, CompareError>) -> bool {
    if reference == current {
        r is Ok && r->Ok_0 is Identical
    } else {
        match (decoded_image(reference), decoded_image(current)) {
            (None, _) => r == Err::<Prepared, CompareError>(CompareError::DecodeReference),
            (Some(_), None) => r == Err::<Prepared, CompareError>(CompareError::DecodeCurrent),
            (Some(a), Some(b)) => {
                let (w, h) = common_size((a.0, a.1), (b.0, b.1));
                if a.0 == b.0 && a.1 == b.1 {
                    r is Ok && r->Ok_0 is Decoded && {
                        let p = r->Ok_0->Decoded_0;
                        holds_image(p.left, a) && holds_image(p.right, b)
                            && p.dimension_mismatch is None
                    }
                } else if !fits(w, h) {
                    r == Err::<Prepared, CompareError>(CompareError::CanvasTooLarge)
                } else {
                    r is Ok && r->Ok_0 is Decoded && {
                        let p = r->Ok_0->Decoded_0;
                        padded_from(p.left, a, w, h) && padded_from(p.right, b, w, h)
                            && p.dimension_mismatch == Some((a.0, a.1, b.0, b.1))
                    }
                }
            },
        }
    }
}

/// The pixel count of a raster fits in 64 bits.
proof fn lemma_area_bound(w: u32, h: u32)
    ensures
        (w as nat) * (h as nat) <= 0xffff_fffe_0000_0001nat,
{
    assert((w as nat) * (h as nat) <= (u32::MAX as nat) * (u32::MAX as nat)) by (nonlinear_arith)
        requires
            w <= u32::MAX,
            h <= u32::MAX,
    ;
}

/// Byte-for-byte equality.
pub fn same_bytes(a: &[u8], b: &[u8]) -> (r: bool)
    ensures
        r == (a@ == b@),
{
    if a.len() != b.len() {
        return false;
    }
    let mut i: usize = 0;
    while i < a.len()
        invariant
            a.len() == b.len(),
            i <= a.len(),
            forall|k: int| 0 <= k < i ==> a@[k] == b@[k],
        decreases a.len() - i,
    {
        if a[i] != b[i] {
            return false;
        }
        i += 1;
    }
    assert(a@ == b@);
    true
}

/// First phase of the comparison: byte-identical blobs need no decoding;
/// otherwise both are decoded to RGBA, and when their sizes differ both are
/// padded with opaque magenta to the common canvas, anchored at the top-left.
pub fn prepare_compare(reference_png: &[u8], current_png: &[u8]) -> (r: Result<Prepared, CompareError>)
    ensures
        prepared_ok(reference_png@, current_png@, r),
        r matches Ok(Prepared::Decoded(p)) ==> p.wf(),
{
    if same_bytes(reference_png, current_png) {
        return Ok(Prepared::Identical);
    }
    let left = match decode_rgba(reference_png) {
        Some(img) => img,
        None => return Err(CompareError::DecodeReference),
    };
    let right = match decode_rgba(current_png) {
        Some(img) => img,
        None => return Err(CompareError::DecodeCurrent),
    };
    if left.width == right.width && left.height == right.height {
        return Ok(Prepared::Decoded(DecodedPair { left, right, dimension_mismatch: None }));
    }
    let max_w = if left.width >= right.width { left.width } else { right.width };
    let max_h = if left.height >= right.height { left.height } else { right.height };
    proof {
        lemma_area_bound(max_w, max_h);
        assert(4 * (max_w as nat) * (max_h as nat) == ((max_w as nat) * (max_h as nat)) * 4)
            by (nonlinear_arith);
    }
    if (max_w as u128) * (max_h as u128) * 4 > usize::MAX as u128 {
        return Err(CompareError::CanvasTooLarge);
    }
    let mismatch = (left.width, left.height, right.width, right.height);
    let padded_left = pad_to(&left, max_w, max_h);
    let padded_right = pad_to(&right, max_w, max_h);
    Ok(
        Prepared::Decoded(
            DecodedPair { left: padded_left, right: padded_right, dimension_mismatch: Some(mismatch) },
        ),
    )
}

/// The result of comparing byte-identical blobs.
pub fn identical_result() -> (r: CompareResult)
    ensures
        r.is_match,
        r.diff_pixels == 0,
        r.total_pixels == 0,
        !r.has_diff_image,
        r.dimension_mismatch is None,
{
    CompareResult {
        is_match: true,
        diff_pixels: 0,
        total_pixels: 0,
        has_diff_image: false,
        dimension_mismatch: None,
    }
}

/// Second phase, after the perceptual engine ran on a decoded pair:
/// `engine_diffs` is the engine's count of differing pixels, or `None` when
/// it produced no result (no difference and no diff image).
pub fn finish_compare(pair: &DecodedPair, engine_diffs: Option<i32>) -> (r: CompareResult)
    requires
        pair.wf(),
    ensures
        r.total_pixels == pair.left.width as nat * pair.left.height as nat,
        r.diff_pixels == match engine_diffs {
            Some(n) => if n >= 0 { n as nat } else { 0 },
            None => 0,
        },
        r.is_match == (r.diff_pixels == 0),
        r.has_diff_image == engine_diffs is Some,
        r.dimension_mismatch == pair.dimension_mismatch,
{
    proof {
        lemma_area_bound(pair.left.width, pair.left.height);
    }
    let total_pixels = (pair.left.width as u64) * (pair.left.height as u64);
    let diff_pixels: u64 = match engine_diffs {
        Some(n) => if n >= 0 { n as u64 } else { 0 },
        None => 0,
    };
    CompareResult {
        is_match: diff_pixels == 0,
        diff_pixels,
        total_pixels,
        has_diff_image: engine_diffs.is_some(),
        dimension_mismatch: pair.dimension_mismatch,
    }
}

/// After a size mismatch both images stand on a canvas of the larger width
/// and height, and every canvas pixel outside an image's own area is exact
/// opaque magenta, RGBA `(255, 0, 255, 255)`.
pub proof fn lemma_padding_is_magenta(reference: Seq<u8>, current: Seq<u8>, r: Result<Prepared, CompareError>)
    requires
        prepared_ok(reference, current, r),
        r matches Ok(Prepared::Decoded(p)) && p.dimension_mismatch is Some,
    ensures
        ({
            let p = r->Ok_0->Decoded_0;
            let a = decoded_image(reference)->Some_0;
            let b = decoded_image(current)->Some_0;
            &&& p.left.width == common_size((a.0, a.1), (b.0, b.1)).0
            &&& p.left.height == common_size((a.0, a.1), (b.0, b.1)).1
            &&& forall|x: nat, y: nat|
                x < p.left.width && y < p.left.height && (x >= a.0 || y >= a.1) ==> #[trigger] p.left.pixel(
                    x,
                    y,
                ) == seq![255u8, 0u8, 255u8, 255u8]
            &&& forall|x: nat, y: nat|
                x < p.right.width && y < p.right.height && (x >= b.0 || y >= b.1)
                    ==> #[trigger] p.right.pixel(x, y) == seq![255u8, 0u8, 255u8, 255u8]
        }),
{
}

/// The first phase treats its two inputs alike: byte-identical blobs take
/// the fast path in either order, a size mismatch is seen in either order,
/// and a comparison of a blob with itself passes with a zero score.
pub proof fn lemma_prepare_symmetric(
    a: Seq<u8>,
    b: Seq<u8>,
    r1: Result<Prepared, CompareError>,
    r2: Result<Prepared, CompareError>,
)
    requires
        prepared_ok(a, b, r1),
        prepared_ok(b, a, r2),
    ensures
        (r1 matches Ok(Prepared::Identical)) == (r2 matches Ok(Prepared::Identical)),
        (r1 matches Ok(Prepared::Decoded(p)) && p.dimension_mismatch is Some) == (
        r2 matches Ok(Prepared::Decoded(q)) && q.dimension_mismatch is Some),
        a == b ==> r1 matches Ok(Prepared::Identical),
{
}

} // verus!
