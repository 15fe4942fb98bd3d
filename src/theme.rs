//! How long addresses are cut into chunks for display.
use vstd::prelude::*;

verus! {

/// Characters of an address that fit on one page in chunks: four rows of
/// sixteen.
pub const FITS_ON_ONE_PAGE: usize = 64;

/// Chunking of a monospace text: groups of `chunk_size` characters,
/// separated by `x_offset` pixels, in at most `max_rows` rows (`0` for no
/// limit).
#[derive(Debug, Clone, Copy, PartialEq, Eq, Structural)]
pub struct Chunks {
    pub chunk_size: usize,
    pub x_offset: i16,
    pub max_rows: usize,
}

/// The parts of a chunked text style that differ between address lengths.
#[derive(Debug, Clone, Copy, PartialEq, Eq, Structural)]
pub struct ChunkifiedTextStyle {
    pub chunks: Chunks,
    pub line_spacing: i16,
    /// Horizontal offset of the next-page ellipsis icon.
    pub ellipsis_offset: i16,
}

/// The chunked style for an address of `character_length` characters:
/// one that fits on a page gets chunks nine pixels apart; a longer one,
/// shown beside a scroll bar, gets chunks seven pixels apart, at most four
/// rows a page and the ellipsis moved left.
pub fn get_chunkified_text_style(character_length: usize) -> (r: ChunkifiedTextStyle)
    ensures
        r == (if character_length <= FITS_ON_ONE_PAGE {
            ChunkifiedTextStyle {
                chunks: Chunks { chunk_size: 4, x_offset: 9, max_rows: 0 },
                line_spacing: 5,
                ellipsis_offset: 0,
            }
        } else {
            ChunkifiedTextStyle {
                chunks: Chunks { chunk_size: 4, x_offset: 7, max_rows: 4 },
                line_spacing: 5,
                ellipsis_offset: -12i16,
            }
        }),
{
    if character_length <= FITS_ON_ONE_PAGE {
        ChunkifiedTextStyle {
            chunks: Chunks { chunk_size: 4, x_offset: 9, max_rows: 0 },
            line_spacing: 5,
            ellipsis_offset: 0,
        }
    } else {
        ChunkifiedTextStyle {
            chunks: Chunks { chunk_size: 4, x_offset: 7, max_rows: 4 },
            line_spacing: 5,
            ellipsis_offset: -12,
        }
    }
}

} // verus!
