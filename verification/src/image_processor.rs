//! Image validation, preprocessing and coarse layout analysis.
//!
//! Decoding and re-encoding are delegated to the `image` crate behind trusted
//! wrappers; everything computed from the decoded pixels — suitability
//! thresholds, the block-luminance layout heuristic, input-type
//! classification — is verified here.
use vstd::prelude::*;

use crate::encoding::{b64_decode, b64_encode, b64_decoding, b64_of};
use crate::text::{starts_with_spec, str_starts_with};
use crate::{ImageLayout, InputType, MathSeekError, MathSeekResult, Region};

verus! {

/// The dimensions of the image the bytes decode to, or nothing when they do
/// not decode. Decoding is a function of the bytes alone.
pub uninterp spec fn image_dims(bytes: Seq<u8>) -> Option<(u32, u32)>;

/// The 8-bit grayscale pixels of the decoded image, row-major, one byte per
/// pixel.
pub uninterp spec fn luma_pixels(bytes: Seq<u8>) -> Seq<u8>;

/// The preprocessed re-encoding of the decoded image: grayscale, dimensions
/// capped, written back as PNG. For an image over the dimension cap the
/// resampling arithmetic goes through the platform's floating-point math
/// library, so this name idealizes the result as one fixed function of the
/// bytes; nothing here relies on the value agreeing across machines.
pub uninterp spec fn preprocessed_png(bytes: Seq<u8>) -> Seq<u8>;

/// Relies on `image::load_from_memory` and `DynamicImage::width`/`height`:
/// succeeds exactly when the bytes decode as a supported raster format, and
/// returns the decoded dimensions. The error text is the decoder's own.
#[verifier::external_body]
fn decode_dimensions(data: &[u8]) -> (r: Result<(u32, u32), String>)
    ensures
        r is Ok <==> image_dims(data@) is Some,
        r matches Ok(d) ==> image_dims(data@) == Some(d),
{
    match image::load_from_memory(data) {
        Ok(img) => Ok((img.width(), img.height())),
        Err(e) => Err(e.to_string()),
    }
}

/// Relies on `image::load_from_memory`, `DynamicImage::to_luma8` and
/// `ImageBuffer::into_raw`: succeeds exactly when the bytes decode; the
/// grayscale conversion keeps the dimensions, and the raw buffer holds one
/// byte per pixel, so its length is width times height.
#[verifier::external_body]
fn decode_luma(data: &[u8]) -> (r: Result<(u32, u32, Vec<u8>), String>)
    ensures
        r is Ok <==> image_dims(data@) is Some,
        r matches Ok((w, h, p)) ==> image_dims(data@) == Some((w, h)) && p@ == luma_pixels(data@)
            && p@.len() == w * h,
{
    match image::load_from_memory(data) {
        Ok(img) => {
            let gray = img.to_luma8();
            Ok((gray.width(), gray.height(), gray.into_raw()))
        },
        Err(e) => Err(e.to_string()),
    }
}

/// Relies on `image::load_from_memory`, `DynamicImage::grayscale`,
/// `DynamicImage::resize` with the Lanczos3 filter, and
/// `DynamicImage::write_to` with the PNG format: decodes, converts to
/// grayscale, caps either dimension at 2048, and re-encodes losslessly.
/// Fails when the bytes do not decode or the encoder fails, with a message
/// naming the failing stage.
#[verifier::external_body]
fn preprocess_encode(data: &[u8]) -> (r: Result<Vec<u8>, String>)
    ensures
        image_dims(data@) is None ==> r is Err,
        r matches Ok(v) ==> image_dims(data@) is Some && v@ == preprocessed_png(data@),
{
    let img = image::load_from_memory(data)
        .map_err(|e| format!("Failed to load image: {}", e))?;
    let gray = img.grayscale();
    let processed = if gray.width() > 2048 || gray.height() > 2048 {
        gray.resize(2048, 2048, image::imageops::FilterType::Lanczos3)
    } else {
        gray
    };
    let mut buffer: Vec<u8> = Vec::new();
    let mut cursor = std::io::Cursor::new(&mut buffer);
    processed.write_to(&mut cursor, image::ImageFormat::Png)
        .map_err(|e| format!("Failed to encode processed image: {}", e))?;
    Ok(buffer)
}

/// Handles image acquisition and analysis.
pub struct ImageProcessor;

impl ImageProcessor {
    /// Whether the bytes are a non-empty, decodable raster image.
    pub fn validate_image(data: &[u8]) -> (b: bool)
        ensures
            b == (data@.len() > 0 && image_dims(data@) is Some),
    {
        if data.len() == 0 {
            return false;
        }
        match decode_dimensions(data) {
            Ok(_) => true,
            Err(_) => false,
        }
    }

    /// The decoded image's width and height.
    pub fn get_image_dimensions(data: &[u8]) -> (r: MathSeekResult<(u32, u32)>)
        ensures
            image_dims(data@) matches Some(d) ==> r == Ok::<(u32, u32), MathSeekError>(d),
            image_dims(data@) is None ==> (r matches Err(MathSeekError::ImageError(m))
                && starts_with_spec(m@, "Failed to load image: "@)),
    {
        match decode_dimensions(data) {
            Ok(d) => Ok(d),
            Err(e) => {
                let msg = String::from_str("Failed to load image: ").concat(e.as_str());
                proof {
                    assert(msg@.take("Failed to load image: "@.len() as int)
                        =~= "Failed to load image: "@);
                }
                Err(MathSeekError::ImageError(msg))
            },
        }
    }

    /// Whether the decoded image's dimensions and size fit processing: at
    /// least 50 pixels each way, at most 4096, at most 10 MiB of input.
    pub fn is_image_suitable_for_processing(data: &[u8]) -> (r: MathSeekResult<bool>)
        ensures
            image_dims(data@) matches Some(d) ==> r == Ok::<bool, MathSeekError>(
                suitable_spec(d.0 as int, d.1 as int, data@.len() as int),
            ),
            image_dims(data@) is None ==> (r matches Err(MathSeekError::ImageError(m))
                && starts_with_spec(m@, "Failed to load image: "@)),
    {
        let (width, height) = match Self::get_image_dimensions(data) {
            Ok(d) => d,
            Err(e) => {
                return Err(e);
            },
        };
        if width < 50 || height < 50 {
            return Ok(false);
        }
        if width > 4096 || height > 4096 {
            return Ok(false);
        }
        if data.len() > 10 * 1024 * 1024 {
            return Ok(false);
        }
        Ok(true)
    }

    /// Decodes, converts to grayscale, caps oversized dimensions, and
    /// re-encodes as PNG.
    pub fn preprocess_image(data: &[u8]) -> (r: MathSeekResult<Vec<u8>>)
        ensures
            r matches Ok(v) ==> image_dims(data@) is Some && v@ == preprocessed_png(data@),
            image_dims(data@) is None ==> r is Err,
            r matches Err(e) ==> e is ImageError,
    {
        match preprocess_encode(data) {
            Ok(v) => Ok(v),
            Err(e) => Err(MathSeekError::ImageError(e)),
        }
    }

    /// Converts image bytes to a `data:` URL with base64 payload, for display.
    pub fn image_to_base64(data: &[u8]) -> (r: MathSeekResult<String>)
        ensures
            data@.len() > 0 && image_dims(data@) is Some ==> (r matches Ok(s) && s@
                == "data:image/png;base64,"@ + b64_of(data@)),
            !(data@.len() > 0 && image_dims(data@) is Some) ==> (r matches Err(
                MathSeekError::ImageError(m),
            ) && m@ == "Invalid image data"@),
    {
        if !Self::validate_image(data) {
            return Err(MathSeekError::ImageError(String::from_str("Invalid image data")));
        }
        let encoded = b64_encode(data);
        let mut out = String::from_str("data:image/png;base64,");
        out.append(encoded.as_str());
        Ok(out)
    }

    /// Decodes a base64 string, stripping a leading `data:image/...` URL
    /// prefix when present.
    pub fn base64_to_image(base64_str: &str) -> (r: MathSeekResult<Vec<u8>>)
        ensures
            b64_decoding(data_url_payload(base64_str@)) matches Some(v) ==> (r matches Ok(b) && b@
                == v),
            b64_decoding(data_url_payload(base64_str@)) is None ==> (r matches Err(
                MathSeekError::ImageError(m),
            ) && starts_with_spec(m@, "Failed to decode base64: "@)),
    {
        let payload = extract_payload(base64_str);
        match b64_decode(payload.as_str()) {
            Ok(v) => Ok(v),
            Err(e) => {
                let msg = String::from_str("Failed to decode base64: ").concat(e.as_str());
                proof {
                    assert(msg@.take("Failed to decode base64: "@.len() as int)
                        =~= "Failed to decode base64: "@);
                }
                Err(MathSeekError::ImageError(msg))
            },
        }
    }
}

// ---------------------------------------------------------------------------
// Block-luminance layout analysis
// ---------------------------------------------------------------------------

/// How many 50-pixel blocks cover `total` pixels.
pub open spec fn blocks_of(total: int) -> int {
    (total + 49) / 50
}

/// The extent of block `b` along an axis of `total` pixels: 50, or the
/// remainder at the edge.
pub open spec fn block_dim(total: int, b: int) -> int {
    if total - 50 * b < 50 {
        total - 50 * b
    } else {
        50
    }
}

/// The sum of `n` pixels of row `y` starting at column `x0`.
pub open spec fn row_px_sum(pix: Seq<u8>, w: int, y: int, x0: int, n: int) -> int
    decreases n,
{
    if n <= 0 {
        0
    } else {
        row_px_sum(pix, w, y, x0, n - 1) + pix[y * w + x0 + (n - 1)]
    }
}

/// The sum of the pixels of a `bw` by `m` block with top-left corner
/// `(x0, y0)`.
pub open spec fn block_px_sum(pix: Seq<u8>, w: int, x0: int, y0: int, bw: int, m: int) -> int
    decreases m,
{
    if m <= 0 {
        0
    } else {
        block_px_sum(pix, w, x0, y0, bw, m - 1) + row_px_sum(pix, w, y0 + (m - 1), x0, bw)
    }
}

/// The mean luminance of a block, by integer division.
pub open spec fn block_mean(pix: Seq<u8>, w: int, x0: int, y0: int, bw: int, bh: int) -> int {
    block_px_sum(pix, w, x0, y0, bw, bh) / (bw * bh)
}

/// The classification of block `(xb, yb)`: 2 for formula-like (mean below
/// 200), 1 for text-like (mean below 240), 0 for background.
pub open spec fn block_class(pix: Seq<u8>, w: int, h: int, xb: int, yb: int) -> int {
    let mean = block_mean(pix, w, 50 * xb, 50 * yb, block_dim(w, xb), block_dim(h, yb));
    if mean < 200 {
        2
    } else if mean < 240 {
        1
    } else {
        0
    }
}

/// The rectangle of block `(xb, yb)`.
pub open spec fn region_at(w: int, h: int, xb: int, yb: int) -> Region {
    Region {
        x: (50 * xb) as u32,
        y: (50 * yb) as u32,
        width: block_dim(w, xb) as u32,
        height: block_dim(h, yb) as u32,
    }
}

/// The regions of the first `n` blocks of block-row `yb` whose class matches
/// (`formula` selects class 2, otherwise class 1), in scan order.
pub open spec fn row_regions(
    pix: Seq<u8>,
    w: int,
    h: int,
    yb: int,
    n: int,
    formula: bool,
) -> Seq<Region>
    decreases n,
{
    if n <= 0 {
        Seq::empty()
    } else {
        row_regions(pix, w, h, yb, n - 1, formula) + (if block_class(pix, w, h, n - 1, yb) == (
        if formula {
            2int
        } else {
            1int
        }) {
            seq![region_at(w, h, n - 1, yb)]
        } else {
            Seq::empty()
        })
    }
}

/// The matching regions of the first `m` block-rows, row-major.
pub open spec fn grid_regions(pix: Seq<u8>, w: int, h: int, m: int, formula: bool) -> Seq<Region>
    decreases m,
{
    if m <= 0 {
        Seq::empty()
    } else {
        grid_regions(pix, w, h, m - 1, formula) + row_regions(
            pix,
            w,
            h,
            m - 1,
            blocks_of(w),
            formula,
        )
    }
}

/// All formula-like regions of the image.
pub open spec fn formula_regions_spec(pix: Seq<u8>, w: int, h: int) -> Seq<Region> {
    grid_regions(pix, w, h, blocks_of(h), true)
}

/// All text-like regions of the image.
pub open spec fn text_regions_spec(pix: Seq<u8>, w: int, h: int) -> Seq<Region> {
    grid_regions(pix, w, h, blocks_of(h), false)
}

proof fn lemma_row_sum_bounds(pix: Seq<u8>, w: int, y: int, x0: int, n: int)
    requires
        n >= 0,
    ensures
        0 <= row_px_sum(pix, w, y, x0, n) <= 255 * n,
    decreases n,
{
    if n > 0 {
        lemma_row_sum_bounds(pix, w, y, x0, n - 1);
    }
}

proof fn lemma_block_sum_bounds(pix: Seq<u8>, w: int, x0: int, y0: int, bw: int, m: int)
    requires
        m >= 0,
        bw >= 0,
    ensures
        0 <= block_px_sum(pix, w, x0, y0, bw, m) <= 255 * bw * m,
    decreases m,
{
    if m > 0 {
        lemma_block_sum_bounds(pix, w, x0, y0, bw, m - 1);
        lemma_row_sum_bounds(pix, w, y0 + (m - 1), x0, bw);
        assert(255 * bw * (m - 1) + 255 * bw == 255 * bw * m) by (nonlinear_arith);
    }
}

/// The mean luminance of one block, by scanning its pixels.
fn block_mean_exec(pix: &Vec<u8>, w: u64, h: u64, x0: u64, y0: u64, bw: u64, bh: u64) -> (r: u32)
    requires
        pix@.len() == w * h,
        x0 + bw <= w,
        y0 + bh <= h,
        1 <= bw <= 50,
        1 <= bh <= 50,
        w * h <= usize::MAX,
    ensures
        r as int == block_mean(pix@, w as int, x0 as int, y0 as int, bw as int, bh as int),
{
    let mut sum: u32 = 0;
    let mut byi: u64 = 0;
    while byi < bh
        invariant
            0 <= byi <= bh,
            pix@.len() == w * h,
            x0 + bw <= w,
            y0 + bh <= h,
            1 <= bw <= 50,
            1 <= bh <= 50,
            w * h <= usize::MAX,
            sum as int == block_px_sum(pix@, w as int, x0 as int, y0 as int, bw as int, byi as int),
        decreases bh - byi,
    {
        proof {
            lemma_block_sum_bounds(pix@, w as int, x0 as int, y0 as int, bw as int, byi as int);
        }
        let mut bx: u64 = 0;
        while bx < bw
            invariant
                0 <= bx <= bw,
                0 <= byi < bh,
                pix@.len() == w * h,
                x0 + bw <= w,
                y0 + bh <= h,
                1 <= bw <= 50,
                1 <= bh <= 50,
                w * h <= usize::MAX,
                sum as int == block_px_sum(
                    pix@,
                    w as int,
                    x0 as int,
                    y0 as int,
                    bw as int,
                    byi as int,
                ) + row_px_sum(pix@, w as int, (y0 + byi) as int, x0 as int, bx as int),
            decreases bw - bx,
        {
            proof {
                lemma_block_sum_bounds(pix@, w as int, x0 as int, y0 as int, bw as int, byi as int);
                lemma_row_sum_bounds(pix@, w as int, (y0 + byi) as int, x0 as int, bx as int);
                assert((y0 + byi) * w + x0 + bx < w * h) by (nonlinear_arith)
                    requires
                        y0 + byi < h,
                        x0 + bx < w,
                        w >= 1,
                ;
            }
            let idx: u64 = (y0 + byi) * w + x0 + bx;
            proof {
                assert(255 * (bw as int) * (byi as int) <= 255 * 50 * 50) by (nonlinear_arith)
                    requires
                        0 <= bw <= 50,
                        0 <= byi <= 50,
                ;
            }
            let p: u8 = pix[idx as usize];
            sum = sum + (p as u32);
            bx = bx + 1;
        }
        byi = byi + 1;
    }
    proof {
        lemma_block_sum_bounds(pix@, w as int, x0 as int, y0 as int, bw as int, bh as int);
    }
    proof {
        assert(1 <= bw * bh <= 2500) by (nonlinear_arith)
            requires
                1 <= bw <= 50,
                1 <= bh <= 50,
        ;
    }
    let count: u64 = bw * bh;
    let avg: u64 = (sum as u64) / count;
    avg as u32
}

impl ImageProcessor {
    /// Partitions the grayscale image into 50-pixel blocks, classifies each
    /// block by mean luminance (formula-like below 200, text-like below 240),
    /// and aggregates the matching regions and the two summary flags.
    pub fn analyze_image_layout(data: &[u8]) -> (r: MathSeekResult<ImageLayout>)
        ensures
            image_dims(data@) is None ==> (r matches Err(MathSeekError::ImageError(m))
                && starts_with_spec(m@, "Failed to load image for analysis: "@)),
            image_dims(data@) matches Some(d) ==> (r matches Ok(l) && {
                let pix = luma_pixels(data@);
                &&& l.formula_regions@ == formula_regions_spec(pix, d.0 as int, d.1 as int)
                &&& l.text_regions@ == text_regions_spec(pix, d.0 as int, d.1 as int)
                &&& l.has_multiple_formulas == (formula_regions_spec(
                    pix,
                    d.0 as int,
                    d.1 as int,
                ).len() > 1)
                &&& l.has_text_content == (text_regions_spec(pix, d.0 as int, d.1 as int).len()
                    > 0)
            }),
    {
        let (w32, h32, pix) = match decode_luma(data) {
            Ok(t) => t,
            Err(e) => {
                let msg = String::from_str("Failed to load image for analysis: ").concat(
                    e.as_str(),
                );
                proof {
                    assert(msg@.take("Failed to load image for analysis: "@.len() as int)
                        =~= "Failed to load image for analysis: "@);
                }
                return Err(MathSeekError::ImageError(msg));
            },
        };
        let w: u64 = w32 as u64;
        let h: u64 = h32 as u64;
        let ghost pixv = pix@;
        let ghost wi = w as int;
        let ghost hi = h as int;
        let mut formula_regions: Vec<Region> = Vec::new();
        let mut text_regions: Vec<Region> = Vec::new();
        let mut y: u64 = 0;
        let ghost mut yb: int = 0;
        while y < h
            invariant
                y == 50 * yb,
                0 <= yb,
                y < h + 50,
                w == w32 as int,
                h == h32 as int,
                pix@ == pixv,
                pixv.len() == wi * hi,
                wi == w as int,
                hi == h as int,
                formula_regions@ == grid_regions(pixv, wi, hi, yb, true),
                text_regions@ == grid_regions(pixv, wi, hi, yb, false),
            decreases h + 50 - y,
        {
            let bh: u64 = if h - y < 50 {
                h - y
            } else {
                50
            };
            let mut x: u64 = 0;
            let ghost mut xb: int = 0;
            while x < w
                invariant
                    x == 50 * xb,
                    0 <= xb,
                    x < w + 50,
                    0 <= y < h,
                    y == 50 * yb,
                    bh == block_dim(hi, yb),
                    1 <= bh <= 50,
                    y + bh <= h,
                    w == w32 as int,
                    h == h32 as int,
                    pix@ == pixv,
                    pixv.len() == wi * hi,
                    wi == w as int,
                    hi == h as int,
                    formula_regions@ == grid_regions(pixv, wi, hi, yb, true) + row_regions(
                        pixv,
                        wi,
                        hi,
                        yb,
                        xb,
                        true,
                    ),
                    text_regions@ == grid_regions(pixv, wi, hi, yb, false) + row_regions(
                        pixv,
                        wi,
                        hi,
                        yb,
                        xb,
                        false,
                    ),
                decreases w + 50 - x,
            {
                let bw: u64 = if w - x < 50 {
                    w - x
                } else {
                    50
                };
                let avg_brightness = block_mean_exec(&pix, w, h, x, y, bw, bh);
                proof {
                    assert(bw == block_dim(wi, xb));
                    assert(avg_brightness as int == block_mean(
                        pixv,
                        wi,
                        50 * xb,
                        50 * yb,
                        block_dim(wi, xb),
                        block_dim(hi, yb),
                    ));
                }
                if avg_brightness < 240 {
                    let region = Region { x: x as u32, y: y as u32, width: bw as u32, height: bh as u32 };
                    proof {
                        assert(x < w <= u32::MAX);
                        assert(y < h <= u32::MAX);
                        assert(region == region_at(wi, hi, xb, yb));
                    }
                    if avg_brightness < 200 {
                        formula_regions.push(region);
                        proof {
                            assert(block_class(pixv, wi, hi, xb, yb) == 2);
                            assert(formula_regions@ =~= grid_regions(pixv, wi, hi, yb, true)
                                + row_regions(pixv, wi, hi, yb, xb + 1, true));
                            assert(text_regions@ =~= grid_regions(pixv, wi, hi, yb, false)
                                + row_regions(pixv, wi, hi, yb, xb + 1, false));
                        }
                    } else {
                        text_regions.push(region);
                        proof {
                            assert(block_class(pixv, wi, hi, xb, yb) == 1);
                            assert(formula_regions@ =~= grid_regions(pixv, wi, hi, yb, true)
                                + row_regions(pixv, wi, hi, yb, xb + 1, true));
                            assert(text_regions@ =~= grid_regions(pixv, wi, hi, yb, false)
                                + row_regions(pixv, wi, hi, yb, xb + 1, false));
                        }
                    }
                } else {
                    proof {
                        assert(block_class(pixv, wi, hi, xb, yb) == 0);
                        assert(formula_regions@ =~= grid_regions(pixv, wi, hi, yb, true)
                            + row_regions(pixv, wi, hi, yb, xb + 1, true));
                        assert(text_regions@ =~= grid_regions(pixv, wi, hi, yb, false)
                            + row_regions(pixv, wi, hi, yb, xb + 1, false));
                    }
                }
                x = x + 50;
                proof {
                    xb = xb + 1;
                }
            }
            proof {
                assert(50 * xb >= wi && 50 * (xb - 1) < wi ==> xb == blocks_of(wi))
                    by (nonlinear_arith);
                if wi == 0 {
                    assert(xb == 0 && blocks_of(wi) == 0);
                } else {
                    assert(xb >= 1);
                    assert(50 * (xb - 1) < wi);
                }
                assert(xb == blocks_of(wi));
                assert(grid_regions(pixv, wi, hi, yb, true) + row_regions(
                    pixv,
                    wi,
                    hi,
                    yb,
                    blocks_of(wi),
                    true,
                ) == grid_regions(pixv, wi, hi, yb + 1, true));
                assert(grid_regions(pixv, wi, hi, yb, false) + row_regions(
                    pixv,
                    wi,
                    hi,
                    yb,
                    blocks_of(wi),
                    false,
                ) == grid_regions(pixv, wi, hi, yb + 1, false));
            }
            y = y + 50;
            proof {
                yb = yb + 1;
            }
        }
        proof {
            assert(50 * yb >= hi && 50 * (yb - 1) < hi ==> yb == blocks_of(hi))
                by (nonlinear_arith);
            if hi == 0 {
                assert(yb == 0 && blocks_of(hi) == 0);
            } else {
                assert(yb >= 1);
                assert(50 * (yb - 1) < hi);
            }
            assert(yb == blocks_of(hi));
        }
        let has_multiple_formulas = formula_regions.len() > 1;
        let has_text_content = text_regions.len() > 0;
        Ok(ImageLayout { has_multiple_formulas, has_text_content, formula_regions, text_regions })
    }

    /// Classifies the image: a document when the layout shows several formula
    /// regions or any text region, a single formula otherwise.
    pub fn detect_input_type(data: &[u8]) -> (r: MathSeekResult<InputType>)
        ensures
            image_dims(data@) is None ==> (r matches Err(MathSeekError::ImageError(m))
                && starts_with_spec(m@, "Failed to load image for analysis: "@)),
            image_dims(data@) matches Some(d) ==> r == Ok::<InputType, MathSeekError>(
                detected_type_spec(luma_pixels(data@), d.0 as int, d.1 as int),
            ),
    {
        let layout = match Self::analyze_image_layout(data) {
            Ok(l) => l,
            Err(e) => {
                return Err(e);
            },
        };
        if layout.has_multiple_formulas || layout.has_text_content {
            Ok(InputType::Document)
        } else {
            Ok(InputType::SingleFormula)
        }
    }
}

/// The classification the layout heuristic yields.
pub open spec fn detected_type_spec(pix: Seq<u8>, w: int, h: int) -> InputType {
    if formula_regions_spec(pix, w, h).len() > 1 || text_regions_spec(pix, w, h).len() > 0 {
        InputType::Document
    } else {
        InputType::SingleFormula
    }
}

/// Whether a decoded image's shape fits processing.
pub open spec fn suitable_spec(w: int, h: int, byte_len: int) -> bool {
    &&& w >= 50
    &&& h >= 50
    &&& w <= 4096
    &&& h <= 4096
    &&& byte_len <= 10 * 1024 * 1024
}

/// The index of the first `','` in `s`, or `-1` if none.
pub open spec fn first_comma(s: Seq<char>) -> int
    decreases s.len(),
{
    if s.len() == 0 {
        -1
    } else if s[0] == ',' {
        0
    } else {
        let r = first_comma(s.skip(1));
        if r < 0 {
            -1
        } else {
            r + 1
        }
    }
}

proof fn lemma_first_comma_bounds(s: Seq<char>)
    ensures
        first_comma(s) >= -1,
        first_comma(s) >= 0 ==> first_comma(s) < s.len() && s[first_comma(s)] == ',',
    decreases s.len(),
{
    if s.len() == 0 {
    } else if s[0] == ',' {
    } else {
        lemma_first_comma_bounds(s.skip(1));
    }
}

proof fn lemma_first_comma_least(s: Seq<char>, k: int)
    requires
        0 <= k < s.len(),
        s[k] == ',',
    ensures
        0 <= first_comma(s) <= k,
    decreases s.len(),
{
    if s.len() == 0 {
    } else if s[0] == ',' {
    } else {
        lemma_first_comma_least(s.skip(1), k - 1);
        lemma_first_comma_bounds(s.skip(1));
    }
}

/// The base64 payload of a possible data URL: for a string with the
/// `data:image/` prefix and a comma, the segment between the first comma and
/// the next comma or the end; otherwise the whole string.
pub open spec fn data_url_payload(s: Seq<char>) -> Seq<char> {
    if starts_with_spec(s, "data:image/"@) && first_comma(s) >= 0 {
        let rest = s.skip(first_comma(s) + 1);
        if first_comma(rest) >= 0 {
            rest.take(first_comma(rest))
        } else {
            rest
        }
    } else {
        s
    }
}

/// The index of the first `','`, by scanning.
fn find_comma(s: &str) -> (r: Option<usize>)
    ensures
        r matches Some(i) ==> i == first_comma(s@) && i < s@.len(),
        r is None ==> first_comma(s@) < 0,
{
    let n: usize = s.unicode_len();
    let mut i: usize = 0;
    while i < n
        invariant
            0 <= i <= n,
            n == s@.len(),
            forall|k: int| 0 <= k < i ==> #[trigger] s@[k] != ',',
        decreases n - i,
    {
        if s.get_char(i) == ',' {
            proof {
                lemma_first_comma_least(s@, i as int);
                lemma_first_comma_bounds(s@);
            }
            return Some(i);
        }
        i = i + 1;
    }
    proof {
        lemma_first_comma_bounds(s@);
    }
    None
}

/// Strips a `data:image/...;base64,` style prefix when present.
fn extract_payload(s: &str) -> (r: String)
    ensures
        r@ == data_url_payload(s@),
{
    if !str_starts_with(s, "data:image/") {
        return s.to_owned();
    }
    match find_comma(s) {
        None => s.to_owned(),
        Some(i) => {
            let n: usize = s.unicode_len();
            let rest = s.substring_char(i + 1, n);
            proof {
                assert(rest@ =~= s@.skip(i as int + 1));
            }
            match find_comma(rest) {
                None => rest.to_owned(),
                Some(j) => {
                    let out = rest.substring_char(0, j);
                    proof {
                        assert(out@ =~= rest@.take(j as int));
                    }
                    out.to_owned()
                },
            }
        },
    }
}

} // verus!
