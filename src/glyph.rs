//! Decoding of packed glyph records.
//!
//! A record is `[width, height, advance, bearing_x, bearing_y, bitmap...]`,
//! where the bitmap is packed according to the build's bits-per-pixel.
use vstd::prelude::*;

verus! {

/// Bits per pixel of the compiled glyph bitmaps.
pub const FONT_BPP: u8 = 4;

/// Length of the fixed header of a glyph record.
pub const GLYPH_HEADER_LEN: usize = 5;

/// Error raised when a glyph record is too short for its own header.
#[derive(Debug, Clone, Copy, PartialEq, Eq, Structural)]
pub enum GlyphError {
    /// The record holds fewer bytes than its header and bitmap require.
    InvalidDataSize,
}

/// The bit depths a build may select.
pub open spec fn is_supported_bpp(bpp: u8) -> bool {
    bpp == 1 || bpp == 2 || bpp == 4 || bpp == 8
}

/// Bytes taken by the packed bitmap of a `width` x `height` glyph.
pub open spec fn bitmap_size_spec(bpp: u8, width: int, height: int) -> int {
    if bpp == 1 {
        (width * height + 7) / 8
    } else if bpp == 2 {
        (width * height + 3) / 4
    } else if bpp == 4 {
        (width + 1) / 2 * height
    } else {
        width * height
    }
}

/// Bytes a whole record needs, header included, judged by its first two bytes.
pub open spec fn record_size_spec(bpp: u8, rec: Seq<u8>) -> int
    recommends
        rec.len() >= 2,
{
    GLYPH_HEADER_LEN as int + bitmap_size_spec(bpp, rec[0] as int, rec[1] as int)
}

/// A record that decodes: a full header and at least the bitmap it announces.
/// Trailing bytes beyond that are tolerated.
pub open spec fn is_valid_record(rec: Seq<u8>) -> bool {
    &&& rec.len() >= GLYPH_HEADER_LEN
    &&& rec.len() >= record_size_spec(FONT_BPP, rec)
}

pub open spec fn record_width(rec: Seq<u8>) -> i16 {
    rec[0] as i16
}

pub open spec fn record_height(rec: Seq<u8>) -> i16 {
    rec[1] as i16
}

pub open spec fn record_advance(rec: Seq<u8>) -> i16 {
    rec[2] as i16
}

pub open spec fn record_bearing_x(rec: Seq<u8>) -> i16 {
    rec[3] as i16
}

pub open spec fn record_bearing_y(rec: Seq<u8>) -> i16 {
    rec[4] as i16
}

/// Number of bytes a packed bitmap of the given size takes at `bpp` bits
/// per pixel. Rows are byte-aligned at 4 bpp; 1 and 2 bpp pack the whole
/// bitmap continuously.
pub fn bitmap_size(bpp: u8, width: u8, height: u8) -> (r: usize)
    requires
        is_supported_bpp(bpp),
    ensures
        r as int == bitmap_size_spec(bpp, width as int, height as int),
        r <= 255 * 255,
{
    let w = width as usize;
    let h = height as usize;
    assert(w * h <= 255 * 255) by (nonlinear_arith)
        requires
            w <= 255,
            h <= 255,
    ;
    if bpp == 1 {
        (w * h + 7) / 8
    } else if bpp == 2 {
        (w * h + 3) / 4
    } else if bpp == 4 {
        assert((w + 1) / 2 * h <= 128 * 255) by (nonlinear_arith)
            requires
                w <= 255,
                h <= 255,
        ;
        (w + 1) / 2 * h
    } else {
        w * h
    }
}

/// Size of the whole record (header and bitmap) that the header of
/// `header` announces.
pub fn calculate_glyph_size(header: &[u8]) -> (r: usize)
    requires
        header@.len() >= 2,
    ensures
        r as int == record_size_spec(FONT_BPP, header@),
{
    GLYPH_HEADER_LEN + bitmap_size(FONT_BPP, header[0], header[1])
}

/// One decoded glyph: its geometry and a view of its packed bitmap.
pub struct Glyph<'a> {
    /// Width of the glyph's bitmap.
    pub width: i16,
    /// Height of the glyph's bitmap.
    pub height: i16,
    /// How far the cursor moves after this glyph.
    pub adv: i16,
    /// Left-side horizontal bearing.
    pub bearing_x: i16,
    /// Top-side vertical bearing.
    pub bearing_y: i16,
    /// The packed bitmap, row-major.
    pub data: &'a [u8],
}

impl<'a> Glyph<'a> {
    /// The packed bitmap bytes the glyph refers to.
    pub open spec fn bitmap_data(&self) -> Seq<u8> {
        self.data@
    }

    /// The glyph is the decoding of record `rec`.
    pub open spec fn decodes(&self, rec: Seq<u8>) -> bool {
        &&& rec.len() >= GLYPH_HEADER_LEN
        &&& self.width == record_width(rec)
        &&& self.height == record_height(rec)
        &&& self.adv == record_advance(rec)
        &&& self.bearing_x == record_bearing_x(rec)
        &&& self.bearing_y == record_bearing_y(rec)
        &&& self.bitmap_data() == rec.subrange(GLYPH_HEADER_LEN as int, rec.len() as int)
    }

    /// Decodes a glyph record. Fails exactly when the record is shorter than
    /// its header plus the bitmap size the header announces; longer records
    /// are accepted and their trailing bytes ignored.
    pub fn load(data: &'a [u8]) -> (r: Result<Glyph<'a>, GlyphError>)
        ensures
            r is Ok <==> is_valid_record(data@),
            r is Ok ==> r->Ok_0.decodes(data@),
            r is Err ==> r->Err_0 == GlyphError::InvalidDataSize,
    {
        if data.len() < GLYPH_HEADER_LEN {
            return Err(GlyphError::InvalidDataSize);
        }
        let size = calculate_glyph_size(data);
        if data.len() < size {
            return Err(GlyphError::InvalidDataSize);
        }
        let bitmap = vstd::slice::slice_subrange(data, GLYPH_HEADER_LEN, data.len());
        Ok(
            Glyph {
                width: data[0] as i16,
                height: data[1] as i16,
                adv: data[2] as i16,
                bearing_x: data[3] as i16,
                bearing_y: data[4] as i16,
                data: bitmap,
            },
        )
    }

    /// Space between the right edge of the glyph and the left edge of the
    /// next glyph's box.
    pub fn right_side_bearing(&self) -> (r: i16)
        requires
            0 <= self.adv <= 255,
            0 <= self.width <= 255,
            0 <= self.bearing_x <= 255,
        ensures
            r == self.adv - self.width - self.bearing_x,
    {
        self.adv - self.width - self.bearing_x
    }
}


/// Intensity (0 to 15) of pixel `a` in a bitmap packed at 1 bit per pixel.
pub open spec fn pixel_bpp1(data: Seq<u8>, a: int) -> u8 {
    (((data[a / 8] >> ((7 - a % 8) as u8)) & 1u8) * 15) as u8
}

/// Intensity (0 to 15) of pixel `a` in a bitmap packed at 2 bits per pixel.
pub open spec fn pixel_bpp2(data: Seq<u8>, a: int) -> u8 {
    (((data[a / 4] >> ((6 - (a % 4) * 2) as u8)) & 3u8) * 5) as u8
}

/// Intensity (0 to 15) of pixel `a` in a bitmap packed at 4 bits per pixel.
pub open spec fn pixel_bpp4(data: Seq<u8>, a: int) -> u8 {
    (data[a / 2] >> ((4 - (a % 2) * 4) as u8)) & 15u8
}

/// Intensity (0 to 15) of pixel `a` in a bitmap of one byte per pixel:
/// the high nibble of the stored byte.
pub open spec fn pixel_bpp8(data: Seq<u8>, a: int) -> u8 {
    data[a] >> 4u8
}

/// Pixel layouts a glyph bitmap can be handed to the renderer in.
#[derive(Debug, Clone, Copy, PartialEq, Eq, Structural)]
pub enum BitmapFormat {
    /// One bit per pixel, packed continuously.
    Mono1P,
    /// Four bits per pixel, each row starting on a byte.
    Mono4,
}

/// A glyph's bitmap as the renderer receives it.
pub struct Bitmap<'a> {
    pub format: BitmapFormat,
    pub width: i16,
    pub height: i16,
    pub data: &'a [u8],
}

impl<'a> Glyph<'a> {
    pub fn unpack_bpp1(&self, a: i16) -> (r: u8)
        requires
            0 <= a,
            (a / 8) < self.data@.len(),
        ensures
            r == pixel_bpp1(self.data@, a as int),
            r <= 15,
    {
        let c_data = self.data[(a / 8) as usize];
        let shift = (7 - a % 8) as u8;
        let bit = (c_data >> shift) & 0x01u8;
        assert(bit <= 1) by (bit_vector)
            requires
                bit == (c_data >> shift) & 0x01u8,
        ;
        bit * 15
    }

    pub fn unpack_bpp2(&self, a: i16) -> (r: u8)
        requires
            0 <= a,
            (a / 4) < self.data@.len(),
        ensures
            r == pixel_bpp2(self.data@, a as int),
            r <= 15,
    {
        let c_data = self.data[(a / 4) as usize];
        let shift = (6 - (a % 4) * 2) as u8;
        let bits = (c_data >> shift) & 0x03u8;
        assert(bits <= 3) by (bit_vector)
            requires
                bits == (c_data >> shift) & 0x03u8,
        ;
        bits * 5
    }

    pub fn unpack_bpp4(&self, a: i16) -> (r: u8)
        requires
            0 <= a,
            (a / 2) < self.data@.len(),
        ensures
            r == pixel_bpp4(self.data@, a as int),
            r <= 15,
    {
        let c_data = self.data[(a / 2) as usize];
        let shift = (4 - (a % 2) * 4) as u8;
        let r = (c_data >> shift) & 0x0Fu8;
        assert(r <= 15) by (bit_vector)
            requires
                r == (c_data >> shift) & 0x0Fu8,
        ;
        r
    }

    pub fn unpack_bpp8(&self, a: i16) -> (r: u8)
        requires
            0 <= a < self.data@.len(),
        ensures
            r == pixel_bpp8(self.data@, a as int),
            r <= 15,
    {
        let c_data = self.data[a as usize];
        let r = c_data >> 4u8;
        assert(r <= 15) by (bit_vector)
            requires
                r == c_data >> 4u8,
        ;
        r
    }

    /// The glyph's bitmap in the format of the build's bit depth.
    pub fn bitmap(&self) -> (r: Bitmap<'a>)
        ensures
            r.format == (if FONT_BPP == 1 {
                BitmapFormat::Mono1P
            } else {
                BitmapFormat::Mono4
            }),
            r.width == self.width,
            r.height == self.height,
            r.data == self.data,
    {
        let format = if FONT_BPP == 1 {
            BitmapFormat::Mono1P
        } else {
            BitmapFormat::Mono4
        };
        Bitmap { format, width: self.width, height: self.height, data: self.data }
    }
}


/// A record holding exactly the bytes its header announces decodes; one
/// byte fewer does not; any number of bytes more still does.
pub proof fn lemma_record_size_boundary(rec: Seq<u8>)
    requires
        rec.len() >= GLYPH_HEADER_LEN,
    ensures
        rec.len() == record_size_spec(FONT_BPP, rec) ==> is_valid_record(rec),
        rec.len() == record_size_spec(FONT_BPP, rec) - 1 ==> !is_valid_record(rec),
        rec.len() > record_size_spec(FONT_BPP, rec) ==> is_valid_record(rec),
{
}

} // verus!
