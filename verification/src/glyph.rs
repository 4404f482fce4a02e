//! The custom LCD character: a crab drawn on the 5x8 dot grid of an
//! HD44780-style character display, stored in one of its eight glyph slots.

use vstd::prelude::*;

verus! {

/// The crab glyph, one byte per dot row from top to bottom; the low five bits
/// of each row are its dots.
pub const FERRIS: [u8; 8] = [0b01010, 0b10001, 0b10001, 0b01110, 0b01110, 0b01110, 0b11111, 0b10001];

/// The glyph slot the crab is stored in.
pub const FERRIS_SLOT: u8 = 0;

/// The number of glyph slots of the display.
pub const GLYPH_SLOTS: u8 = 8;

/// The rows of the crab glyph.
pub open spec fn ferris_rows() -> Seq<u8> {
    seq![0b01010u8, 0b10001u8, 0b10001u8, 0b01110u8, 0b01110u8, 0b01110u8, 0b11111u8, 0b10001u8]
}

/// Whether `rows` is a glyph: eight rows, each using only the five dots of a
/// character cell.
pub open spec fn is_glyph(rows: Seq<u8>) -> bool {
    rows.len() == 8 && forall|i: int| 0 <= i < 8 ==> #[trigger] rows[i] < 32
}

/// The crab glyph's rows.
pub fn ferris_glyph() -> (rows: [u8; 8])
    ensures
        rows@ == ferris_rows(),
        is_glyph(rows@),
{
    let rows = FERRIS;
    assert(rows@ =~= ferris_rows());
    rows
}

/// The crab fits a character cell and its slot exists, so the driver stores
/// and shows it.
pub proof fn lemma_ferris_is_storable()
    ensures
        is_glyph(ferris_rows()),
        FERRIS_SLOT < GLYPH_SLOTS,
{
}

} // verus!
