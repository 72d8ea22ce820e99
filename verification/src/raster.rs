//! Rasters: the colour captures that are stitched and the greyscale frames
//! that are analysed, with the cut and paste operations on them.

use vstd::prelude::*;

verus! {

/// Bytes per pixel of a colour raster (red, green, blue, alpha).
pub const CHANNELS: usize = 4;

/// Position of channel `c` of pixel `(x, y)` in the bytes of a colour raster
/// that is `width` pixels wide.
pub open spec fn offset_of(width: int, x: int, y: int, c: int) -> int {
    (y * width + x) * 4 + c
}

/// A pixel inside a raster has its bytes inside the raster's buffer.
pub proof fn lemma_offset_in_bounds(width: int, height: int, x: int, y: int, c: int)
    requires
        0 <= x < width,
        0 <= y < height,
        0 <= c < 4,
    ensures
        0 <= offset_of(width, x, y, c) < 4 * width * height,
        0 <= y * width <= y * width + x < width * height,
        4 * width * height == 4 * (width * height),
{
    assert(y * width + x < width * height) by (nonlinear_arith)
        requires
            0 <= x < width,
            0 <= y < height,
    ;
    assert(0 <= y * width) by (nonlinear_arith)
        requires
            0 <= y,
            0 <= width,
    ;
    assert(4 * width * height == 4 * (width * height)) by (nonlinear_arith);
}

/// Different channels of different pixels lie at different positions.
pub proof fn lemma_offset_injective(
    width: int,
    x1: int,
    y1: int,
    c1: int,
    x2: int,
    y2: int,
    c2: int,
)
    requires
        0 <= x1 < width,
        0 <= x2 < width,
        0 <= y1,
        0 <= y2,
        0 <= c1 < 4,
        0 <= c2 < 4,
        offset_of(width, x1, y1, c1) == offset_of(width, x2, y2, c2),
    ensures
        x1 == x2,
        y1 == y2,
        c1 == c2,
{
    assert(y1 * width + x1 == y2 * width + x2);
    assert(y1 == y2) by (nonlinear_arith)
        requires
            y1 * width + x1 == y2 * width + x2,
            0 <= x1 < width,
            0 <= x2 < width,
            0 <= y1,
            0 <= y2,
    {
        if y1 < y2 {
            assert((y1 + 1) * width <= y2 * width);
        } else if y2 < y1 {
            assert((y2 + 1) * width <= y1 * width);
        }
    }
}

/// Moving one row down moves the position by one row of bytes.
pub proof fn lemma_offset_next_row(width: int, x: int, y: int, c: int)
    ensures
        offset_of(width, x, y + 1, c) == offset_of(width, x, y, c) + 4 * width,
{
    assert((y + 1) * width == y * width + width) by (nonlinear_arith);
}

/// The number of pixels of a raster of the given size.
pub fn pixel_count(width: u32, height: u32) -> (count: u64)
    ensures
        count == width * height,
{
    assert(width * height <= 0xffff_ffff * 0xffff_ffff) by (nonlinear_arith)
        requires
            0 <= width <= 0xffff_ffff,
            0 <= height <= 0xffff_ffff,
    ;
    (width as u64) * (height as u64)
}

/// A map from channel `c` of pixel `(x, y)` to its value.
pub type Picture = spec_fn(int, int, int) -> u8;

/// What a colour raster is: its size and its bytes.
pub struct RasterView {
    pub width: int,
    pub height: int,
    pub bytes: Seq<u8>,
}

impl RasterView {
    /// The bytes are exactly those of the pixels that the size announces.
    pub open spec fn wf(self) -> bool {
        &&& 0 <= self.width
        &&& 0 <= self.height
        &&& self.bytes.len() == 4 * self.width * self.height
    }

    /// Channel `c` of pixel `(x, y)`.
    pub open spec fn byte_at(self, x: int, y: int, c: int) -> u8 {
        self.bytes[offset_of(self.width, x, y, c)]
    }

    /// Whether `(x, y)` is a pixel of this raster.
    pub open spec fn holds(self, x: int, y: int) -> bool {
        0 <= x < self.width && 0 <= y < self.height
    }

    /// The raster as a map from pixels and channels to values.
    pub open spec fn picture(self) -> Picture {
        |x: int, y: int, c: int| self.byte_at(x, y, c)
    }

    /// The rectangle that a cut at `(x, y)` of the given size really covers:
    /// the corner is moved back into the raster and the size is cut down to
    /// what lies inside it. The result is (left, top, width, height).
    pub open spec fn clamped(self, x: int, y: int, width: int, height: int) -> (
        int,
        int,
        int,
        int,
    ) {
        let left = if x < self.width {
            x
        } else {
            self.width
        };
        let top = if y < self.height {
            y
        } else {
            self.height
        };
        let w = if width <= self.width - left {
            width
        } else {
            self.width - left
        };
        let h = if height <= self.height - top {
            height
        } else {
            self.height - top
        };
        (left, top, w, h)
    }

    /// Whether `cut` is the rectangle of this raster at `(x, y)` of the
    /// given size, cut down to what lies inside this raster.
    pub open spec fn cut_is(
        self,
        cut: RasterView,
        x: int,
        y: int,
        width: int,
        height: int,
    ) -> bool {
        &&& cut.wf()
        &&& cut.width == self.clamped(x, y, width, height).2
        &&& cut.height == self.clamped(x, y, width, height).3
        &&& forall|i: int, j: int, c: int|
            cut.holds(i, j) && 0 <= c < 4 ==> #[trigger] cut.byte_at(i, j, c) == self.byte_at(
                self.clamped(x, y, width, height).0 + i,
                self.clamped(x, y, width, height).1 + j,
                c,
            )
    }
}

/// Whether the image pasted with its top left corner at `(ox, oy)` covers
/// the pixel `(x, y)`.
pub open spec fn covers(image: RasterView, ox: int, oy: int, x: int, y: int) -> bool {
    ox <= x < ox + image.width && oy <= y < oy + image.height
}

/// The picture `base` after `image` has been pasted over it with its top
/// left corner at `(ox, oy)`.
pub open spec fn painted(base: Picture, image: RasterView, ox: int, oy: int) -> Picture {
    |x: int, y: int, c: int|
        if covers(image, ox, oy, x, y) {
            image.byte_at(x - ox, y - oy, c)
        } else {
            base(x, y, c)
        }
}

/// Whether the raster shows the given picture on all of its pixels.
pub open spec fn shows(raster: RasterView, picture: Picture) -> bool {
    forall|x: int, y: int, c: int|
        raster.holds(x, y) && 0 <= c < 4 ==> #[trigger] raster.byte_at(x, y, c) == picture(x, y, c)
}

/// A colour raster: `width` by `height` pixels of four bytes each (red,
/// green, blue, alpha), row by row from the top.
#[derive(Clone, Debug)]
pub struct Raster {
    pub width: u32,
    pub height: u32,
    pub data: Vec<u8>,
}

impl View for Raster {
    type V = RasterView;

    open spec fn view(&self) -> RasterView {
        RasterView { width: self.width as int, height: self.height as int, bytes: self.data@ }
    }
}

impl Raster {
    /// The buffer holds exactly the pixels that the dimensions announce.
    pub open spec fn wf(&self) -> bool {
        self@.wf()
    }

    /// Makes a raster of the given size from its bytes, or `None` when the
    /// number of bytes does not fit the size.
    pub fn new(width: u32, height: u32, data: Vec<u8>) -> (raster: Option<Raster>)
        ensures
            raster is Some <==> data@.len() == 4 * width * height,
            raster matches Some(r) ==> r.wf() && r.width == width && r.height == height && r.data@
                == data@,
    {
        let wanted: u128 = 4 * (pixel_count(width, height) as u128);
        assert(4 * width * height == 4 * (width * height)) by (nonlinear_arith);
        if data.len() as u128 == wanted {
            Some(Raster { width, height, data })
        } else {
            None
        }
    }

    /// Whether the buffer fits the dimensions.
    pub fn is_valid(&self) -> (valid: bool)
        ensures
            valid == self.wf(),
    {
        let wanted: u128 = 4 * (pixel_count(self.width, self.height) as u128);
        assert(4 * self.width * self.height == 4 * (self.width * self.height))
            by (nonlinear_arith);
        self.data.len() as u128 == wanted
    }

    /// A raster of the given size with every byte zero, or `None` when its
    /// bytes cannot be addressed on this machine.
    pub fn blank(width: u32, height: u32) -> (raster: Option<Raster>)
        ensures
            raster is Some <==> 4 * width * height <= usize::MAX,
            raster matches Some(r) ==> {
                &&& r.wf()
                &&& r.width == width
                &&& r.height == height
                &&& shows(r@, |x: int, y: int, c: int| 0u8)
            },
    {
        let wanted: u128 = 4 * (pixel_count(width, height) as u128);
        assert(4 * width * height == 4 * (width * height)) by (nonlinear_arith);
        if wanted <= usize::MAX as u128 {
            let data: Vec<u8> = vec![0u8; wanted as usize];
            let raster = Raster { width, height, data };
            assert forall|x: int, y: int, c: int|
                raster@.holds(x, y) && 0 <= c < 4 implies #[trigger] raster@.byte_at(x, y, c)
                == 0u8 by {
                lemma_offset_in_bounds(width as int, height as int, x, y, c);
            }
            Some(raster)
        } else {
            None
        }
    }

    /// Position in the buffer of the first byte of pixel `(x, y)`.
    fn index_of(&self, x: u32, y: u32) -> (at: usize)
        requires
            self.wf(),
            self@.holds(x as int, y as int),
        ensures
            at == offset_of(self.width as int, x as int, y as int, 0),
            at + 4 <= self.data@.len(),
    {
        proof {
            lemma_offset_in_bounds(self.width as int, self.height as int, x as int, y as int, 3);
        }
        let total: usize = self.data.len();
        assert(4 * (y * self.width + x) + 3 < total);
        let row: usize = (y as usize) * (self.width as usize);
        (row + x as usize) * CHANNELS
    }

    /// A copy of the rectangle at `(x, y)` of the given size, cut down to
    /// the part of it that lies inside this raster.
    pub fn crop_imm(&self, x: u32, y: u32, width: u32, height: u32) -> (cut: Raster)
        requires
            self.wf(),
        ensures
            self@.cut_is(cut@, x as int, y as int, width as int, height as int),
    {
        let left: u32 = if x < self.width {
            x
        } else {
            self.width
        };
        let top: u32 = if y < self.height {
            y
        } else {
            self.height
        };
        let w: u32 = if width <= self.width - left {
            width
        } else {
            self.width - left
        };
        let h: u32 = if height <= self.height - top {
            height
        } else {
            self.height - top
        };
        let mut data: Vec<u8> = Vec::new();
        if w == 0 || h == 0 {
            assert(4 * w * h == 0) by (nonlinear_arith)
                requires
                    w == 0 || h == 0,
            ;
            return Raster { width: w, height: h, data };
        }
        proof {
            lemma_offset_in_bounds(
                self.width as int,
                self.height as int,
                self.width - 1,
                self.height - 1,
                3,
            );
            assert(4 * self.width <= 4 * (self.width * self.height)) by (nonlinear_arith)
                requires
                    self.height >= 1,
                    self.width >= 0,
            ;
        }
        let total: usize = self.data.len();
        let row_bytes: usize = CHANNELS * (w as usize);
        let mut j: u32 = 0;
        while j < h
            invariant
                self.wf(),
                self.data@.len() == total,
                w > 0,
                left + w <= self.width,
                top + h <= self.height,
                row_bytes == 4 * w,
                j <= h,
                data@.len() == offset_of(w as int, 0, j as int, 0),
                forall|i: int, r: int, c: int|
                    0 <= i < w && 0 <= r < j && 0 <= c < 4 ==> data@[#[trigger] offset_of(
                        w as int,
                        i,
                        r,
                        c,
                    )] == self@.byte_at(left + i, top + r, c),
            decreases h - j,
        {
            let row_start: usize = self.index_of(left, top + j);
            proof {
                lemma_offset_in_bounds(
                    self.width as int,
                    self.height as int,
                    left + w - 1,
                    top + j,
                    3,
                );
            }
            let ghost before = data@;
            let mut k: usize = 0;
            while k < row_bytes
                invariant
                    self.wf(),
                    row_bytes == 4 * w,
                    k <= row_bytes,
                    row_start + row_bytes <= self.data@.len() <= usize::MAX,
                    data@.len() == before.len() + k,
                    forall|p: int| 0 <= p < before.len() ==> #[trigger] data@[p] == before[p],
                    forall|p: int|
                        before.len() <= p < before.len() + k ==> #[trigger] data@[p]
                            == self.data@[row_start + p - before.len()],
                decreases row_bytes - k,
            {
                data.push(self.data[row_start + k]);
                k = k + 1;
            }
            proof {
                lemma_offset_next_row(w as int, 0, j as int, 0);
                assert forall|i: int, r: int, c: int|
                    0 <= i < w && 0 <= r < j + 1 && 0 <= c < 4 implies data@[#[trigger] offset_of(
                    w as int,
                    i,
                    r,
                    c,
                )] == self@.byte_at(left + i, top + r, c) by {
                    if r < j {
                        lemma_offset_in_bounds(w as int, j as int, i, r, c);
                        assert(4 * w * j == offset_of(w as int, 0, j as int, 0))
                            by (nonlinear_arith);
                    } else {
                        let p = before.len() + 4 * i + c;
                        assert(offset_of(w as int, i, r, c) == p);
                        assert(data@[p] == self.data@[row_start + p - before.len()]);
                    }
                }
            }
            j = j + 1;
        }
        proof {
            assert(offset_of(w as int, 0, h as int, 0) == 4 * w * h) by (nonlinear_arith);
        }
        Raster { width: w, height: h, data }
    }
}

/// Pastes `image` into `canvas` with its top left corner at
/// `(offset_x, offset_y)`, replacing what was there.
pub fn overlay_image(canvas: &mut Raster, image: &Raster, offset_x: u32, offset_y: u32)
    requires
        old(canvas).wf(),
        image.wf(),
        offset_x + image.width <= old(canvas).width,
        offset_y + image.height <= old(canvas).height,
    ensures
        final(canvas).wf(),
        final(canvas).width == old(canvas).width,
        final(canvas).height == old(canvas).height,
        shows(
            final(canvas)@,
            painted(old(canvas)@.picture(), image@, offset_x as int, offset_y as int),
        ),
{
    let ghost start = canvas@;
    if image.width == 0 || image.height == 0 {
        return ;
    }
    proof {
        lemma_offset_in_bounds(
            image.width as int,
            image.height as int,
            image.width - 1,
            image.height - 1,
            3,
        );
        assert(4 * image.width <= 4 * (image.width * image.height)) by (nonlinear_arith)
            requires
                image.height >= 1,
                image.width >= 0,
        ;
    }
    let image_total: usize = image.data.len();
    let canvas_total: usize = canvas.data.len();
    let row_bytes: usize = CHANNELS * (image.width as usize);
    let mut r: u32 = 0;
    while r < image.height
        invariant
            canvas.wf(),
            start.wf(),
            image.wf(),
            image.data@.len() == image_total,
            canvas.data@.len() == canvas_total,
            image.width > 0,
            canvas.width == start.width,
            canvas.height == start.height,
            offset_x + image.width <= canvas.width,
            offset_y + image.height <= canvas.height,
            row_bytes == 4 * image.width,
            r <= image.height,
            forall|x: int, y: int, c: int|
                canvas@.holds(x, y) && 0 <= c < 4 ==> #[trigger] canvas@.byte_at(x, y, c) == (if covers(
                    image@,
                    offset_x as int,
                    offset_y as int,
                    x,
                    y,
                ) && y - offset_y < r {
                    image@.byte_at(x - offset_x, y - offset_y, c)
                } else {
                    start.byte_at(x, y, c)
                }),
        decreases image.height - r,
    {
        let from_row: usize = image.index_of(0, r);
        let to_row: usize = canvas.index_of(offset_x, offset_y + r);
        proof {
            lemma_offset_in_bounds(
                image.width as int,
                image.height as int,
                image.width - 1,
                r as int,
                3,
            );
            lemma_offset_in_bounds(
                canvas.width as int,
                canvas.height as int,
                offset_x + image.width - 1,
                offset_y + r,
                3,
            );
        }
        let mut k: usize = 0;
        while k < row_bytes
            invariant
                canvas.wf(),
                start.wf(),
                image.wf(),
                image.width > 0,
                canvas.width == start.width,
                canvas.height == start.height,
                offset_x + image.width <= canvas.width,
                offset_y + image.height <= canvas.height,
                row_bytes == 4 * image.width,
                r < image.height,
                k <= row_bytes,
                from_row == offset_of(image.width as int, 0, r as int, 0),
                to_row == offset_of(canvas.width as int, offset_x as int, offset_y + r, 0),
                from_row + row_bytes <= image.data@.len() <= usize::MAX,
                to_row + row_bytes <= canvas.data@.len() <= usize::MAX,
                forall|x: int, y: int, c: int|
                    canvas@.holds(x, y) && 0 <= c < 4 ==> #[trigger] canvas@.byte_at(x, y, c) == (if covers(
                        image@,
                        offset_x as int,
                        offset_y as int,
                        x,
                        y,
                    ) && (y - offset_y < r || (y - offset_y == r && 4 * (x - offset_x) + c < k)) {
                        image@.byte_at(x - offset_x, y - offset_y, c)
                    } else {
                        start.byte_at(x, y, c)
                    }),
            decreases row_bytes - k,
        {
            let ghost px: int = (k / 4) as int;
            let ghost pc: int = (k % 4) as int;
            let ghost prior = canvas@;
            let value = image.data[from_row + k];
            canvas.data.set(to_row + k, value);
            proof {
                assert(from_row + k == offset_of(image.width as int, px, r as int, pc));
                assert(to_row + k == offset_of(
                    canvas.width as int,
                    offset_x + px,
                    offset_y + r,
                    pc,
                ));
                assert forall|x: int, y: int, c: int|
                    canvas@.holds(x, y) && 0 <= c < 4 implies #[trigger] canvas@.byte_at(x, y, c) == (if covers(
                    image@,
                    offset_x as int,
                    offset_y as int,
                    x,
                    y,
                ) && (y - offset_y < r || (y - offset_y == r && 4 * (x - offset_x) + c < k + 1)) {
                    image@.byte_at(x - offset_x, y - offset_y, c)
                } else {
                    start.byte_at(x, y, c)
                }) by {
                    lemma_offset_in_bounds(canvas.width as int, canvas.height as int, x, y, c);
                    if offset_of(canvas.width as int, x, y, c) == to_row + k {
                        lemma_offset_injective(
                            canvas.width as int,
                            x,
                            y,
                            c,
                            offset_x + px,
                            offset_y + r,
                            pc,
                        );
                    } else {
                        assert(canvas@.byte_at(x, y, c) == prior.byte_at(x, y, c));
                    }
                }
            }
            k = k + 1;
        }
        r = r + 1;
    }
}

/// What a greyscale frame is: its size and the intensities of its pixels.
pub struct GrayView {
    pub width: int,
    pub height: int,
    pub luma: Seq<u8>,
}

impl GrayView {
    /// The intensities are exactly those of the pixels that the size
    /// announces.
    pub open spec fn wf(self) -> bool {
        &&& 0 <= self.width
        &&& 0 <= self.height
        &&& self.luma.len() == self.width * self.height
    }

    /// Whether `(x, y)` is a pixel of this frame.
    pub open spec fn holds(self, x: int, y: int) -> bool {
        0 <= x < self.width && 0 <= y < self.height
    }

    /// The intensity of pixel `(x, y)`.
    pub open spec fn luma_at(self, x: int, y: int) -> u8 {
        self.luma[y * self.width + x]
    }
}

/// A greyscale frame: `width` by `height` pixels of one byte each, row by
/// row from the top.
#[derive(Clone, Debug)]
pub struct GrayFrame {
    pub width: u32,
    pub height: u32,
    pub data: Vec<u8>,
}

impl View for GrayFrame {
    type V = GrayView;

    open spec fn view(&self) -> GrayView {
        GrayView { width: self.width as int, height: self.height as int, luma: self.data@ }
    }
}

impl GrayFrame {
    /// The buffer holds exactly the pixels that the dimensions announce.
    pub open spec fn wf(&self) -> bool {
        self@.wf()
    }

    /// Makes a frame of the given size from its bytes, or `None` when the
    /// number of bytes does not fit the size.
    pub fn new(width: u32, height: u32, data: Vec<u8>) -> (frame: Option<GrayFrame>)
        ensures
            frame is Some <==> data@.len() == width * height,
            frame matches Some(f) ==> f.wf() && f.width == width && f.height == height && f.data@
                == data@,
    {
        let wanted: u128 = pixel_count(width, height) as u128;
        if data.len() as u128 == wanted {
            Some(GrayFrame { width, height, data })
        } else {
            None
        }
    }

    /// Whether the buffer fits the dimensions.
    pub fn is_valid(&self) -> (valid: bool)
        ensures
            valid == self.wf(),
    {
        let wanted: u128 = pixel_count(self.width, self.height) as u128;
        self.data.len() as u128 == wanted
    }

    /// The intensity of pixel `(x, y)`, or `None` outside the frame.
    pub fn get(&self, x: i64, y: i64) -> (value: Option<u8>)
        requires
            self.wf(),
        ensures
            value == (if self@.holds(x as int, y as int) {
                Some(self@.luma_at(x as int, y as int))
            } else {
                None
            }),
    {
        if 0 <= x && x < self.width as i64 && 0 <= y && y < self.height as i64 {
            proof {
                lemma_offset_in_bounds(
                    self.width as int,
                    self.height as int,
                    x as int,
                    y as int,
                    0,
                );
            }
            let total: usize = self.data.len();
            let row: usize = (y as usize) * (self.width as usize);
            Some(self.data[row + x as usize])
        } else {
            None
        }
    }
}

} // verus!
