//! Captured images: host-memory pixels in rows from top to bottom, four bytes
//! a pixel (red, green, blue, alpha), and the two transforms of the capture
//! pipeline, the vertical flip and the crop.
use crate::geometry::FrameRegion;
use vstd::arithmetic::div_mod::lemma_fundamental_div_mod_converse;
use vstd::arithmetic::mul::{lemma_mul_inequality, lemma_mul_is_distributive_add_other_way};
use vstd::prelude::*;
use vstd::slice::slice_subrange;

verus! {

/// One pixel.
#[derive(Clone, Copy, Debug, PartialEq, Eq, Structural)]
pub struct Rgba {
    pub r: u8,
    pub g: u8,
    pub b: u8,
    pub a: u8,
}

/// What an image is: its width and height in pixels and its bytes, row
/// after row.
pub struct Raster {
    pub width: nat,
    pub height: nat,
    pub bytes: Seq<u8>,
}

impl Raster {
    /// The bytes are exactly those of `width` by `height` pixels.
    pub open spec fn wf(self) -> bool {
        self.bytes.len() == self.width * self.height * 4
    }

    /// Bytes in a row.
    pub open spec fn stride(self) -> int {
        self.width as int * 4
    }

    /// Where the pixel in column `x` of row `y` starts.
    pub open spec fn offset(self, x: int, y: int) -> int {
        (y * self.width + x) * 4
    }

    /// Whether column `x` of row `y` is a pixel of the image.
    pub open spec fn holds(self, x: int, y: int) -> bool {
        0 <= x < self.width && 0 <= y < self.height
    }

    /// The pixel in column `x` of row `y`.
    pub open spec fn pixel(self, x: int, y: int) -> Rgba
        recommends
            self.wf(),
            self.holds(x, y),
    {
        let at = self.offset(x, y);
        Rgba { r: self.bytes[at], g: self.bytes[at + 1], b: self.bytes[at + 2], a: self.bytes[at + 3] }
    }

    /// The image with its rows in the opposite order: the first row becomes
    /// the last.
    pub open spec fn flipped(self) -> Raster {
        Raster {
            width: self.width,
            height: self.height,
            bytes: Seq::new(
                self.bytes.len(),
                |i: int|
                    self.bytes[(self.height - 1 - i / self.stride()) * self.stride() + i
                        % self.stride()],
            ),
        }
    }

    /// The part of `region` that lies inside the image: an origin past the
    /// far edge is moved onto it, and the extent is cut to what is left.
    pub open spec fn bounded(self, region: FrameRegion) -> FrameRegion {
        let x = if region.x as nat <= self.width {
            region.x as nat
        } else {
            self.width
        };
        let y = if region.y as nat <= self.height {
            region.y as nat
        } else {
            self.height
        };
        let w = if region.w as nat <= self.width - x {
            region.w as int
        } else {
            self.width - x
        };
        let h = if region.h as nat <= self.height - y {
            region.h as int
        } else {
            self.height - y
        };
        FrameRegion { x: x as u32, y: y as u32, w: w as u32, h: h as u32 }
    }

    /// The pixels of the image that lie in `region`, as an image of their
    /// own.
    pub open spec fn cropped(self, region: FrameRegion) -> Raster {
        let part = self.bounded(region);
        let row = part.w * 4;
        Raster {
            width: part.w as nat,
            height: part.h as nat,
            bytes: Seq::new(
                (part.w * part.h * 4) as nat,
                |i: int| self.bytes[((part.y + i / row) * self.width + part.x) * 4 + i % row],
            ),
        }
    }
}

/// A pixel image in host memory.
pub struct CapturedImage {
    width: u32,
    height: u32,
    data: Vec<u8>,
}

/// An index into row-major bytes, taken apart into its row and its place in
/// the row.
proof fn lemma_row_split(i: int, row: int, len: int)
    requires
        0 < len,
        0 <= row,
        row * len <= i < row * len + len,
    ensures
        i / len == row,
        i % len == i - row * len,
{
    lemma_fundamental_div_mod_converse(i, len, row, i - row * len);
}

/// Row `row` of `rows` rows of `len` bytes ends inside the bytes.
proof fn lemma_row_inside(row: int, rows: int, len: int)
    requires
        0 <= row < rows,
        0 <= len,
    ensures
        0 <= row * len,
        row * len + len <= rows * len,
{
    lemma_mul_inequality(row + 1, rows, len);
    lemma_mul_is_distributive_add_other_way(len, row, 1);
    lemma_mul_inequality(0, row, len);
}

/// The rows up to and including row `row` hold one row more than those
/// before it.
proof fn lemma_next_row(row: int, len: int)
    ensures
        (row + 1) * len == row * len + len,
{
    lemma_mul_is_distributive_add_other_way(len, row, 1);
}

/// An index into row-major bytes lies in one of the rows.
proof fn lemma_index_row(i: int, rows: int, len: int)
    requires
        0 < len,
        0 <= i < rows * len,
    ensures
        0 <= i / len < rows,
        0 <= i % len < len,
        i == (i / len) * len + i % len,
{
    let q = i / len;
    assert(i == q * len + i % len && 0 <= i % len < len) by (nonlinear_arith)
        requires
            0 < len,
            q == i / len,
    ;
    assert(q >= 0) by (nonlinear_arith)
        requires
            0 < len,
            0 <= i,
            q == i / len,
    ;
    if q >= rows {
        lemma_mul_inequality(rows, q, len);
    }
}

impl CapturedImage {
    #[verifier::type_invariant]
    spec fn consistent(self) -> bool {
        self.data@.len() == self.width * self.height * 4
    }

    /// What the image is.
    pub closed spec fn view(&self) -> Raster {
        Raster { width: self.width as nat, height: self.height as nat, bytes: self.data@ }
    }

    /// Builds an image of `width` by `height` pixels from its bytes. The
    /// bytes must be exactly those of that many pixels, four each: a buffer
    /// that is shorter or longer is refused, and nothing is cut or padded.
    pub fn from_raw(width: u32, height: u32, bytes: Vec<u8>) -> (made: Option<CapturedImage>)
        ensures
            made is Some <==> bytes@.len() == width * height * 4,
            made matches Some(image) ==> image@ == (Raster {
                width: width as nat,
                height: height as nat,
                bytes: bytes@,
            }) && image@.wf(),
    {
        assert(width * height <= 0xffff_ffff * 0xffff_ffff) by (nonlinear_arith)
            requires
                0 <= width <= 0xffff_ffff,
                0 <= height <= 0xffff_ffff,
        ;
        let pixels: u128 = width as u128 * height as u128;
        let expected: u128 = pixels * 4;
        if bytes.len() as u128 == expected {
            Some(CapturedImage { width, height, data: bytes })
        } else {
            None
        }
    }

    /// A single pixel that is black and fully transparent.
    pub fn transparent_pixel() -> (image: CapturedImage)
        ensures
            image@ == (Raster { width: 1, height: 1, bytes: seq![0u8, 0u8, 0u8, 0u8] }),
            image@.wf(),
    {
        let mut data: Vec<u8> = Vec::new();
        data.push(0);
        data.push(0);
        data.push(0);
        data.push(0);
        assert(data@ =~= seq![0u8, 0u8, 0u8, 0u8]);
        assert(data@.len() == 1u32 * 1u32 * 4);
        CapturedImage { width: 1, height: 1, data }
    }

    /// Width in pixels.
    pub fn width(&self) -> (w: u32)
        ensures
            w == self@.width,
            self@.wf(),
    {
        proof {
            use_type_invariant(self);
        }
        self.width
    }

    /// Height in pixels.
    pub fn height(&self) -> (h: u32)
        ensures
            h == self@.height,
            self@.wf(),
    {
        proof {
            use_type_invariant(self);
        }
        self.height
    }

    /// The bytes, row after row.
    pub fn as_raw(&self) -> (bytes: &Vec<u8>)
        ensures
            bytes@ == self@.bytes,
            self@.wf(),
    {
        proof {
            use_type_invariant(self);
        }
        &self.data
    }

    /// Gives up the image for its bytes.
    pub fn into_raw(self) -> (bytes: Vec<u8>)
        ensures
            bytes@ == self@.bytes,
            self@.wf(),
    {
        proof {
            use_type_invariant(&self);
        }
        self.data
    }

    /// Whether the image holds no pixel.
    pub fn is_empty(&self) -> (b: bool)
        ensures
            b == (self@.width == 0 || self@.height == 0),
    {
        self.width == 0 || self.height == 0
    }

    /// The pixel in column `x` of row `y`, if the image has one there.
    pub fn get_pixel(&self, x: u32, y: u32) -> (found: Option<Rgba>)
        ensures
            found == if self@.holds(x as int, y as int) {
                Some(self@.pixel(x as int, y as int))
            } else {
                None
            },
    {
        proof {
            use_type_invariant(self);
        }
        if x >= self.width || y >= self.height {
            return None;
        }
        let total: usize = self.data.len();
        proof {
            let len = self.width * 4;
            lemma_row_inside(y as int, self.height as int, len);
            assert(y * len == (y * self.width) * 4) by (nonlinear_arith)
                requires
                    len == self.width * 4,
            ;
            assert(self.height * len == self.width * self.height * 4) by (nonlinear_arith)
                requires
                    len == self.width * 4,
            ;
            assert(0 <= y * self.width) by (nonlinear_arith)
                requires
                    0 <= y,
                    0 <= self.width,
            ;
            assert((y * self.width + x) * 4 + 4 <= total);
        }
        let at: usize = (y as usize * self.width as usize + x as usize) * 4;
        Some(
            Rgba {
                r: self.data[at],
                g: self.data[at + 1],
                b: self.data[at + 2],
                a: self.data[at + 3],
            },
        )
    }

    /// Turns the image upside down, in place: the rows change their order
    /// and nothing else changes. Device framebuffers keep the bottom row
    /// first; images on disk keep the top row first.
    pub fn flip_vertical(&mut self)
        ensures
            final(self)@ == old(self)@.flipped(),
            final(self)@.wf(),
            forall|x: int, y: int|
                old(self)@.holds(x, y) ==> #[trigger] final(self)@.pixel(x, y) == old(self)@.pixel(
                    x,
                    old(self)@.height - 1 - y,
                ),
    {
        proof {
            use_type_invariant(&*self);
            let before = self@;
            assert forall|x: int, y: int| before.holds(x, y) implies #[trigger] before.flipped().pixel(
                x,
                y,
            ) == before.pixel(x, before.height - 1 - y) by {
                lemma_flipped_pixel(before, x, y);
            }
        }
        if self.width == 0 || self.height == 0 {
            assert(self.data@.len() == 0) by (nonlinear_arith)
                requires
                    self.data@.len() == self.width * self.height * 4,
                    self.width == 0 || self.height == 0,
            ;
            assert(self@.flipped().bytes =~= self@.bytes);
            return ;
        }
        let ghost before = self@;
        let rows: usize = self.height as usize;
        let total: usize = self.data.len();
        assert(self.width * 4 <= total) by (nonlinear_arith)
            requires
                total == self.width * self.height * 4,
                self.height >= 1,
        ;
        let len: usize = self.width as usize * 4;
        assert(rows * len == self.data@.len()) by (nonlinear_arith)
            requires
                self.data@.len() == self.width * self.height * 4,
                len == self.width * 4,
                rows == self.height,
        ;
        let mut out: Vec<u8> = Vec::with_capacity(self.data.len());
        let mut row: usize = 0;
        while row < rows
            invariant
                row <= rows,
                0 < len,
                len == before.stride(),
                rows == before.height,
                before.bytes == self.data@,
                rows * len == self.data@.len(),
                total == self.data@.len(),
                out@.len() == row * len,
                forall|i: int| 0 <= i < out@.len() ==> out@[i] == before.flipped().bytes[i],
            decreases rows - row,
        {
            let from: usize = rows - 1 - row;
            proof {
                lemma_row_inside(from as int, rows as int, len as int);
                lemma_row_inside(row as int, rows as int, len as int);
                lemma_next_row(row as int, len as int);
            }
            let start: usize = from * len;
            let ghost filled = out@;
            let line = slice_subrange(self.data.as_slice(), start, start + len);
            out.extend_from_slice(line);
            proof {
                assert forall|i: int| 0 <= i < out@.len() implies out@[i]
                    == before.flipped().bytes[i] by {
                    if i >= filled.len() {
                        lemma_row_split(i, row as int, len as int);
                        assert(out@[i] == line@[i - filled.len()]);
                    } else {
                        assert(out@[i] == filled[i]);
                    }
                }
            }
            row = row + 1;
        }
        assert(out@ =~= before.flipped().bytes);
        self.data = out;
    }

    /// The pixels that lie in `region`, as an image of their own. A region
    /// that reaches past the image is cut to the part inside it; a region
    /// that misses the image gives an image without pixels.
    pub fn crop(&self, region: FrameRegion) -> (part: CapturedImage)
        ensures
            part@ == self@.cropped(region),
            part@.wf(),
            self@.wf(),
            part@.width == self@.bounded(region).w,
            part@.height == self@.bounded(region).h,
            forall|i: int, j: int|
                part@.holds(i, j) ==> #[trigger] part@.pixel(i, j) == self@.pixel(
                    self@.bounded(region).x + i,
                    self@.bounded(region).y + j,
                ),
    {
        proof {
            use_type_invariant(self);
            let whole = self@;
            assert forall|i: int, j: int| whole.cropped(region).holds(i, j) implies #[trigger] whole.cropped(
                region,
            ).pixel(i, j) == whole.pixel(
                whole.bounded(region).x + i,
                whole.bounded(region).y + j,
            ) by {
                lemma_cropped_pixel(whole, region, i, j);
            }
        }
        let x: u32 = if region.x <= self.width {
            region.x
        } else {
            self.width
        };
        let y: u32 = if region.y <= self.height {
            region.y
        } else {
            self.height
        };
        let w: u32 = if region.w <= self.width - x {
            region.w
        } else {
            self.width - x
        };
        let h: u32 = if region.h <= self.height - y {
            region.h
        } else {
            self.height - y
        };
        let ghost whole = self@;
        assert(whole.bounded(region) == (FrameRegion { x, y, w, h }));
        if w == 0 || h == 0 {
            assert(w * h * 4 == 0) by (nonlinear_arith)
                requires
                    w == 0 || h == 0,
            ;
            let part = CapturedImage { width: w, height: h, data: Vec::new() };
            assert(part@.bytes =~= whole.cropped(region).bytes);
            return part;
        }
        let wide: usize = self.width as usize;
        let total: usize = self.data.len();
        assert(wide * 4 <= total && wide * self.height * 4 == total) by (nonlinear_arith)
            requires
                total == self.width * self.height * 4,
                self.height >= 1,
                wide == self.width,
        ;
        let len: usize = w as usize * 4;
        let rows: usize = h as usize;
        let left: usize = x as usize * 4;
        let span: usize = wide * 4;
        let mut out: Vec<u8> = Vec::new();
        let mut row: usize = 0;
        while row < rows
            invariant
                row <= rows,
                0 < len,
                len == w * 4,
                rows == h,
                left == x * 4,
                span == whole.width * 4,
                wide == whole.width,
                whole.height == self.height,
                x + w <= whole.width,
                y + h <= whole.height,
                whole.bytes == self.data@,
                total == self.data@.len(),
                whole.width * whole.height * 4 == self.data@.len(),
                whole.bounded(region) == (FrameRegion { x, y, w, h }),
                out@.len() == row * len,
                forall|i: int| 0 <= i < out@.len() ==> out@[i] == whole.cropped(region).bytes[i],
            decreases rows - row,
        {
            proof {
                lemma_row_inside(y + row, whole.height as int, span as int);
                lemma_row_inside(row as int, rows as int, len as int);
                lemma_next_row(row as int, len as int);
                assert(whole.height * span == self.data@.len()) by (nonlinear_arith)
                    requires
                        span == whole.width * 4,
                        whole.width * whole.height * 4 == self.data@.len(),
                ;
            }
            let start: usize = (y as usize + row) * span + left;
            let ghost filled = out@;
            let line = slice_subrange(self.data.as_slice(), start, start + len);
            out.extend_from_slice(line);
            proof {
                assert forall|i: int| 0 <= i < out@.len() implies out@[i] == whole.cropped(
                    region,
                ).bytes[i] by {
                    if i >= filled.len() {
                        lemma_row_split(i, row as int, len as int);
                        lemma_row_inside(row as int, rows as int, len as int);
                        assert(rows * len == w * h * 4) by (nonlinear_arith)
                            requires
                                rows == h,
                                len == w * 4,
                        ;
                        assert(((y + row) * whole.width + x) * 4 == (y + row) * span + left)
                            by (nonlinear_arith)
                            requires
                                span == whole.width * 4,
                                left == x * 4,
                        ;
                        assert(out@[i] == line@[i - filled.len()]);
                    } else {
                        assert(out@[i] == filled[i]);
                    }
                }
            }
            row = row + 1;
        }
        proof {
            assert(rows * len == w * h * 4) by (nonlinear_arith)
                requires
                    rows == h,
                    len == w * 4,
            ;
            assert(out@ =~= whole.cropped(region).bytes);
        }
        CapturedImage { width: w, height: h, data: out }
    }
}

/// The byte `k` of the pixel in column `x` of row `y`, as a row and a place
/// in the row.
proof fn lemma_pixel_byte(r: Raster, x: int, y: int, k: int)
    requires
        r.wf(),
        r.holds(x, y),
        0 <= k < 4,
    ensures
        r.offset(x, y) + k == y * r.stride() + (x * 4 + k),
        0 <= r.offset(x, y) + k < r.bytes.len(),
        (r.offset(x, y) + k) / r.stride() == y,
        (r.offset(x, y) + k) % r.stride() == x * 4 + k,
        r.height * r.stride() == r.bytes.len(),
{
    let len = r.stride();
    assert((y * r.width + x) * 4 == y * len + x * 4) by (nonlinear_arith)
        requires
            len == r.width * 4,
    ;
    assert(r.height * len == r.width * r.height * 4) by (nonlinear_arith)
        requires
            len == r.width * 4,
    ;
    lemma_row_inside(y, r.height as int, len);
    lemma_row_split(r.offset(x, y) + k, y, len);
}

/// Flipping moves rows and nothing else: the pixel in column `x` of row `y`
/// of the flipped image is the pixel in the same column of row
/// `height - 1 - y` of the image. The first row of the one is the last row
/// of the other.
pub proof fn lemma_flipped_pixel(r: Raster, x: int, y: int)
    requires
        r.wf(),
        r.holds(x, y),
    ensures
        r.flipped().wf(),
        r.flipped().holds(x, y),
        r.holds(x, r.height - 1 - y),
        r.flipped().pixel(x, y) == r.pixel(x, r.height - 1 - y),
{
    let f = r.flipped();
    let up = r.height - 1 - y;
    lemma_pixel_byte(r, x, y, 0);
    lemma_pixel_byte(r, x, y, 1);
    lemma_pixel_byte(r, x, y, 2);
    lemma_pixel_byte(r, x, y, 3);
    lemma_pixel_byte(r, x, up, 0);
    lemma_pixel_byte(r, x, up, 1);
    lemma_pixel_byte(r, x, up, 2);
    lemma_pixel_byte(r, x, up, 3);
    assert(f.bytes[f.offset(x, y) + 0] == r.bytes[r.offset(x, up) + 0]);
    assert(f.bytes[f.offset(x, y) + 1] == r.bytes[r.offset(x, up) + 1]);
    assert(f.bytes[f.offset(x, y) + 2] == r.bytes[r.offset(x, up) + 2]);
    assert(f.bytes[f.offset(x, y) + 3] == r.bytes[r.offset(x, up) + 3]);
}

/// Flipping twice gives the image back.
pub proof fn lemma_flip_twice(r: Raster)
    requires
        r.wf(),
    ensures
        r.flipped().flipped() == r,
{
    let f = r.flipped();
    let len = r.stride();
    assert(r.height * len == r.width * r.height * 4) by (nonlinear_arith)
        requires
            len == r.width * 4,
    ;
    assert forall|i: int| 0 <= i < r.bytes.len() implies f.flipped().bytes[i] == r.bytes[i] by {
        assert(len > 0) by (nonlinear_arith)
            requires
                r.height * len > 0,
                len >= 0,
        ;
        lemma_index_row(i, r.height as int, len);
        let row = i / len;
        let up = r.height - 1 - row;
        let at = up * len + i % len;
        lemma_row_inside(up, r.height as int, len);
        lemma_row_split(at, up, len);
    }
    assert(f.flipped().bytes =~= r.bytes);
}

/// An image of one colour stays that image when it is flipped.
pub proof fn lemma_flip_keeps_solid(r: Raster, colour: Rgba)
    requires
        r.wf(),
        forall|x: int, y: int| r.holds(x, y) ==> #[trigger] r.pixel(x, y) == colour,
    ensures
        forall|x: int, y: int|
            r.flipped().holds(x, y) ==> #[trigger] r.flipped().pixel(x, y) == colour,
{
    assert forall|x: int, y: int| r.flipped().holds(x, y) implies #[trigger] r.flipped().pixel(
        x,
        y,
    ) == colour by {
        lemma_flipped_pixel(r, x, y);
        assert(r.pixel(x, r.height - 1 - y) == colour);
    }
}

/// A region is cut to a part that lies inside the image, and a region that
/// lies inside the image is kept as it is.
pub proof fn lemma_bounded_fits(r: Raster, region: FrameRegion)
    requires
        r.width <= u32::MAX,
        r.height <= u32::MAX,
    ensures
        r.bounded(region).fits(r.width as int, r.height as int),
        region.fits(r.width as int, r.height as int) ==> r.bounded(region) == region,
{
}

/// The cropped image has the extent of the part of the region that lies
/// inside the image, and its pixel in column `i` of row `j` is the pixel of
/// the image that lies `i` columns and `j` rows from the part's origin.
pub proof fn lemma_cropped_pixel(r: Raster, region: FrameRegion, i: int, j: int)
    requires
        r.wf(),
        r.width <= u32::MAX,
        r.height <= u32::MAX,
        0 <= i < r.bounded(region).w,
        0 <= j < r.bounded(region).h,
    ensures
        r.cropped(region).wf(),
        r.cropped(region).width == r.bounded(region).w,
        r.cropped(region).height == r.bounded(region).h,
        r.holds(r.bounded(region).x + i, r.bounded(region).y + j),
        r.cropped(region).pixel(i, j) == r.pixel(r.bounded(region).x + i, r.bounded(region).y + j),
{
    let part = r.bounded(region);
    let c = r.cropped(region);
    assert(c.bytes.len() == c.width * c.height * 4);
    lemma_pixel_byte(c, i, j, 0);
    lemma_pixel_byte(c, i, j, 1);
    lemma_pixel_byte(c, i, j, 2);
    lemma_pixel_byte(c, i, j, 3);
    lemma_pixel_byte(r, part.x + i, part.y + j, 0);
    lemma_pixel_byte(r, part.x + i, part.y + j, 1);
    lemma_pixel_byte(r, part.x + i, part.y + j, 2);
    lemma_pixel_byte(r, part.x + i, part.y + j, 3);
    assert(((part.y + j) * r.width + part.x) * 4 + i * 4 == ((part.y + j) * r.width + (part.x
        + i)) * 4) by (nonlinear_arith);
    assert(c.bytes[c.offset(i, j) + 0] == r.bytes[r.offset(part.x + i, part.y + j) + 0]);
    assert(c.bytes[c.offset(i, j) + 1] == r.bytes[r.offset(part.x + i, part.y + j) + 1]);
    assert(c.bytes[c.offset(i, j) + 2] == r.bytes[r.offset(part.x + i, part.y + j) + 2]);
    assert(c.bytes[c.offset(i, j) + 3] == r.bytes[r.offset(part.x + i, part.y + j) + 3]);
}

/// Cropping to the whole image changes nothing.
pub proof fn lemma_crop_whole(r: Raster)
    requires
        r.wf(),
        r.width <= u32::MAX,
        r.height <= u32::MAX,
    ensures
        r.cropped(FrameRegion { x: 0, y: 0, w: r.width as u32, h: r.height as u32 }) == r,
{
    let region = FrameRegion { x: 0, y: 0, w: r.width as u32, h: r.height as u32 };
    let c = r.cropped(region);
    let len = r.stride();
    assert(r.height * len == r.width * r.height * 4) by (nonlinear_arith)
        requires
            len == r.width * 4,
    ;
    assert forall|i: int| 0 <= i < r.bytes.len() implies c.bytes[i] == r.bytes[i] by {
        assert(len > 0) by (nonlinear_arith)
            requires
                r.height * len > 0,
                len >= 0,
        ;
        lemma_index_row(i, r.height as int, len);
        assert(((0 + i / len) * r.width + 0) * 4 == (i / len) * len) by (nonlinear_arith)
            requires
                len == r.width * 4,
        ;
    }
    assert(c.bytes =~= r.bytes);
}

} // verus!
