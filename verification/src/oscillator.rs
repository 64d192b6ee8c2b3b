use vstd::prelude::*;

verus! {

/// Samples in one cycle of each wavetable.
pub const TABLE_SIZE: usize = 2048;

/// Number of wavetables: sine, saw, square, triangle.
pub const TABLE_COUNT: usize = 4;

/// The table that a waveform code reads: unknown codes play the last one, the triangle.
pub fn waveform_table(waveform: u8) -> (t: usize)
    ensures
        t < TABLE_COUNT,
        waveform < 4 ==> t == waveform,
        waveform >= 4 ==> t == 3,
{
    if waveform < 3 {
        waveform as usize
    } else {
        3
    }
}

/// The two neighbouring table entries that a read position falls between:
/// the position wrapped into the table, and the next entry, wrapping at the end.
pub fn table_neighbours(position: usize) -> (r: (usize, usize))
    ensures
        r.0 == position % TABLE_SIZE,
        r.1 == (r.0 + 1) % (TABLE_SIZE as int),
        r.0 < TABLE_SIZE,
        r.1 < TABLE_SIZE,
{
    let i0 = position % TABLE_SIZE;
    let i1 = (i0 + 1) % TABLE_SIZE;
    (i0, i1)
}

} // verus!
